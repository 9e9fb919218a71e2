//! Dispatch: the bus calls that this library asks for, as plain values.

use vstd::prelude::*;
use crate::discovery::Player;

verus! {

/// How long, in milliseconds, a bus call may wait for its reply.
pub const CALL_TIMEOUT_MS: i32 = 2000;

/// A transport command that a player accepts.
#[derive(Clone, Copy, Debug, PartialEq, Eq, Structural)]
pub enum Command {
    PlayPause,
    Play,
    Pause,
    Stop,
    Next,
}

/// The remote method that carries each command, spelled case-sensitively.
pub open spec fn method_of(c: Command) -> Seq<char> {
    match c {
        Command::PlayPause => "PlayPause"@,
        Command::Play => "Play"@,
        Command::Pause => "Pause"@,
        Command::Stop => "Stop"@,
        Command::Next => "Next"@,
    }
}

/// The object path under which every player serves its controls.
pub open spec fn player_path() -> Seq<char> {
    "/org/mpris/MediaPlayer2"@
}

/// The interface that holds a player's transport controls.
pub open spec fn player_interface() -> Seq<char> {
    "org.mpris.MediaPlayer2.Player"@
}

impl Command {
    /// The name of the remote method for this command.
    pub fn method(&self) -> (r: &'static str)
        ensures
            r@ == method_of(*self),
    {
        proof {
            reveal_strlit("PlayPause");
            reveal_strlit("Play");
            reveal_strlit("Pause");
            reveal_strlit("Stop");
            reveal_strlit("Next");
        }
        match self {
            Command::PlayPause => "PlayPause",
            Command::Play => "Play",
            Command::Pause => "Pause",
            Command::Stop => "Stop",
            Command::Next => "Next",
        }
    }
}

/// A method call without arguments, as its four addressing fields.
#[derive(Debug, PartialEq, Eq)]
pub struct MethodCall {
    pub destination: String,
    pub path: String,
    pub interface: String,
    pub member: String,
}

/// What a method call addresses.
pub struct CallView {
    pub destination: Seq<char>,
    pub path: Seq<char>,
    pub interface: Seq<char>,
    pub member: Seq<char>,
}

impl View for MethodCall {
    type V = CallView;

    open spec fn view(&self) -> CallView {
        CallView {
            destination: self.destination@,
            path: self.path@,
            interface: self.interface@,
            member: self.member@,
        }
    }
}

/// The call that sends command `c` to the player named `dest`.
pub open spec fn command_call(dest: Seq<char>, c: Command) -> CallView {
    CallView {
        destination: dest,
        path: player_path(),
        interface: player_interface(),
        member: method_of(c),
    }
}

/// The registrar's query for every name on the bus.
pub open spec fn list_names_view() -> CallView {
    CallView {
        destination: "org.freedesktop.DBus"@,
        path: "/"@,
        interface: "org.freedesktop.DBus"@,
        member: "ListNames"@,
    }
}

/// The call that asks the bus registrar for every name it holds.
pub fn list_names_call() -> (r: MethodCall)
    ensures
        r@ == list_names_view(),
{
    proof {
        reveal_strlit("org.freedesktop.DBus");
        reveal_strlit("/");
        reveal_strlit("ListNames");
    }
    MethodCall {
        destination: String::from_str("org.freedesktop.DBus"),
        path: String::from_str("/"),
        interface: String::from_str("org.freedesktop.DBus"),
        member: String::from_str("ListNames"),
    }
}

impl Player {
    /// The call that sends `command` to this player.
    pub fn send_mpris_command(&self, command: Command) -> (r: MethodCall)
        ensures
            r@ == command_call(self@, command),
    {
        proof {
            reveal_strlit("/org/mpris/MediaPlayer2");
            reveal_strlit("org.mpris.MediaPlayer2.Player");
        }
        MethodCall {
            destination: self.name().to_string(),
            path: String::from_str("/org/mpris/MediaPlayer2"),
            interface: String::from_str("org.mpris.MediaPlayer2.Player"),
            member: command.method().to_string(),
        }
    }

    /// The call that toggles between playing and pausing.
    pub fn play_pause(&self) -> (r: MethodCall)
        ensures
            r@ == command_call(self@, Command::PlayPause),
    {
        self.send_mpris_command(Command::PlayPause)
    }

    /// The call that starts playback.
    pub fn play(&self) -> (r: MethodCall)
        ensures
            r@ == command_call(self@, Command::Play),
    {
        self.send_mpris_command(Command::Play)
    }

    /// The call that pauses playback.
    pub fn pause(&self) -> (r: MethodCall)
        ensures
            r@ == command_call(self@, Command::Pause),
    {
        self.send_mpris_command(Command::Pause)
    }

    /// The call that stops playback.
    pub fn stop(&self) -> (r: MethodCall)
        ensures
            r@ == command_call(self@, Command::Stop),
    {
        self.send_mpris_command(Command::Stop)
    }

    /// The call that skips to the next track.
    pub fn next(&self) -> (r: MethodCall)
        ensures
            r@ == command_call(self@, Command::Next),
    {
        self.send_mpris_command(Command::Next)
    }
}

/// Each command reaches a method of its own: the mapping is one to one, and
/// every call goes to the player's control path and interface.
pub proof fn lemma_command_mapping(dest: Seq<char>, a: Command, b: Command)
    ensures
        command_call(dest, a).destination == dest,
        command_call(dest, a).path == player_path(),
        command_call(dest, a).interface == player_interface(),
        command_call(dest, a).member == method_of(a),
        a != b ==> method_of(a) != method_of(b),
{
    reveal_strlit("PlayPause");
    reveal_strlit("Play");
    reveal_strlit("Pause");
    reveal_strlit("Stop");
    reveal_strlit("Next");
    if a != b {
        if method_of(a).len() == method_of(b).len() {
            assert(method_of(a)[1] != method_of(b)[1] || method_of(a)[0] != method_of(b)[0]);
        }
    }
}

} // verus!
