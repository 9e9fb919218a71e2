//! What one run of the controller does, decided from the requested action
//! and the players that discovery found.

use vstd::prelude::*;
use crate::command::{command_call, CallView, Command, MethodCall};
use crate::discovery::{names_of, texts_of, Player};

verus! {

/// An action that a user can request.
#[derive(Clone, Copy, Debug, PartialEq, Eq, Structural)]
pub enum Action {
    /// List the names of the players that can be controlled.
    ListAll,
    PlayPause,
    Play,
    Pause,
    Stop,
    Next,
}

/// The command that an action sends, or `None` for the list action.
pub open spec fn command_of(a: Action) -> Option<Command> {
    match a {
        Action::ListAll => None,
        Action::PlayPause => Some(Command::PlayPause),
        Action::Play => Some(Command::Play),
        Action::Pause => Some(Command::Pause),
        Action::Stop => Some(Command::Stop),
        Action::Next => Some(Command::Next),
    }
}

impl Action {
    /// The command that this action sends, or `None` for the list action.
    pub fn command(&self) -> (r: Option<Command>)
        ensures
            r == command_of(*self),
    {
        match self {
            Action::ListAll => None,
            Action::PlayPause => Some(Command::PlayPause),
            Action::Play => Some(Command::Play),
            Action::Pause => Some(Command::Pause),
            Action::Stop => Some(Command::Stop),
            Action::Next => Some(Command::Next),
        }
    }
}

/// What a run does once the players are known.
#[derive(Debug)]
pub enum Plan {
    /// Report that no player was found, and send nothing.
    NoPlayer,
    /// Print each of these names on a line of its own, and send nothing.
    List(Vec<String>),
    /// Send this one call, and wait for its reply.
    Dispatch(MethodCall),
}

/// The meaning of a plan.
pub enum PlanView {
    NoPlayer,
    List(Seq<Seq<char>>),
    Dispatch(CallView),
}

impl View for Plan {
    type V = PlanView;

    open spec fn view(&self) -> PlanView {
        match self {
            Plan::NoPlayer => PlanView::NoPlayer,
            Plan::List(lines) => PlanView::List(texts_of(lines@)),
            Plan::Dispatch(call) => PlanView::Dispatch(call@),
        }
    }
}

/// The plan for `action` when discovery found players named `names`, in order:
/// every name, possibly none, for the list action; otherwise the action's
/// command sent to the first player, or the report that no player was found.
pub open spec fn planned(action: Action, names: Seq<Seq<char>>) -> PlanView {
    match command_of(action) {
        None => PlanView::List(names),
        Some(c) => if names.len() == 0 {
            PlanView::NoPlayer
        } else {
            PlanView::Dispatch(command_call(names[0], c))
        },
    }
}

/// Decides what a run does for `action` once discovery has found `players`.
pub fn decide(action: Action, players: &Vec<Player>) -> (r: Plan)
    ensures
        r@ == planned(action, names_of(players@)),
{
    match action.command() {
        None => {
            let mut lines: Vec<String> = Vec::new();
            let mut i: usize = 0;
            while i < players.len()
                invariant
                    i <= players@.len(),
                    texts_of(lines@) == names_of(players@).subrange(0, i as int),
                decreases players@.len() - i,
            {
                let line = players[i].to_string();
                let ghost before = lines@;
                lines.push(line);
                proof {
                    assert(texts_of(lines@) =~= texts_of(before).push(players@[i as int]@));
                    assert(texts_of(lines@) =~= names_of(players@).subrange(
                        0,
                        i as int + 1,
                    ));
                }
                i = i + 1;
            }
            proof {
                assert(names_of(players@).subrange(0, players@.len() as int) =~= names_of(
                    players@,
                ));
            }
            Plan::List(lines)
        },
        Some(c) => if players.len() == 0 {
            Plan::NoPlayer
        } else {
            Plan::Dispatch(players[0].send_mpris_command(c))
        },
    }
}

/// The message that a run shows when no player was found.
pub fn no_player_message() -> (r: &'static str)
    ensures
        r@ == "No player found"@,
{
    "No player found"
}

/// Without a player, a command is not sent: the run reports that no player
/// was found.
pub proof fn lemma_no_player_no_dispatch(action: Action, names: Seq<Seq<char>>)
    requires
        names.len() == 0,
        command_of(action) is Some,
    ensures
        planned(action, names) == PlanView::NoPlayer,
{
}

/// A command goes to the first player found, whatever players follow it.
pub proof fn lemma_first_player_targeted(action: Action, names: Seq<Seq<char>>)
    requires
        names.len() >= 1,
        command_of(action) is Some,
    ensures
        planned(action, names) == PlanView::Dispatch(
            command_call(names[0], command_of(action)->Some_0),
        ),
        forall|i: int|
            0 < i < names.len() && names[i] != names[0] ==> planned(action, names)
                != PlanView::Dispatch(command_call(names[i], command_of(action)->Some_0)),
{
    let c = command_of(action)->Some_0;
    assert forall|i: int| 0 < i < names.len() && names[i] != names[0] implies planned(action, names)
        != PlanView::Dispatch(command_call(names[i], c)) by {
        assert(command_call(names[i], c).destination != command_call(names[0], c).destination);
    }
}

/// The list action sends no method call to any player: it lists every name
/// that discovery found, in order, and nothing else, also when there is none.
pub proof fn lemma_list_never_dispatches(names: Seq<Seq<char>>)
    ensures
        !(planned(Action::ListAll, names) is Dispatch),
        planned(Action::ListAll, names) == PlanView::List(names),
{
}

} // verus!
