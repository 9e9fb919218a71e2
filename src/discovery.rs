//! Discovery: picking the MPRIS players out of the registrar's list of names.

use vstd::prelude::*;

verus! {

/// The namespace under which MPRIS players publish their bus names.
pub open spec fn player_prefix() -> Seq<char> {
    "org.mpris.MediaPlayer2."@
}

/// A bus name belongs to a player when it starts with the MPRIS namespace.
pub open spec fn is_player_name(name: Seq<char>) -> bool {
    player_prefix().is_prefix_of(name)
}

/// The names of `names` that belong to players, in their original order.
pub open spec fn player_names(names: Seq<Seq<char>>) -> Seq<Seq<char>> {
    names.filter(|n: Seq<char>| is_player_name(n))
}

/// The MPRIS namespace, as text.
pub fn player_prefix_str() -> (r: &'static str)
    ensures
        r@ == player_prefix(),
{
    proof {
        reveal_strlit("org.mpris.MediaPlayer2.");
    }
    "org.mpris.MediaPlayer2."
}

/// Tells whether `text` begins with `prefix`, character by character.
pub fn starts_with(text: &str, prefix: &str) -> (r: bool)
    ensures
        r == prefix@.is_prefix_of(text@),
{
    let n: usize = prefix.unicode_len();
    let m: usize = text.unicode_len();
    if n > m {
        return false;
    }
    let mut i: usize = 0;
    while i < n
        invariant
            n == prefix@.len(),
            m == text@.len(),
            n <= m,
            i <= n,
            forall|j: int| 0 <= j < i ==> prefix@[j] == text@[j],
        decreases n - i,
    {
        if prefix.get_char(i) != text.get_char(i) {
            return false;
        }
        i = i + 1;
    }
    true
}

/// Tells whether a bus name lies in the MPRIS namespace.
pub fn is_player(name: &str) -> (r: bool)
    ensures
        r == is_player_name(name@),
{
    starts_with(name, player_prefix_str())
}

/// A player found on the bus, known by its bus name.
///
/// Its name always lies in the MPRIS namespace and never changes.
#[derive(Debug)]
pub struct Player {
    name: String,
}

impl Player {
    /// The player's bus name.
    pub closed spec fn view(&self) -> Seq<char> {
        self.name@
    }

    /// Every player carries a name of the MPRIS namespace.
    pub open spec fn wf(&self) -> bool {
        is_player_name(self@)
    }

    /// A player for `name`, or `None` when the name lies outside the namespace.
    pub fn new(name: String) -> (r: Option<Player>)
        ensures
            r is Some <==> is_player_name(name@),
            r matches Some(p) ==> p@ == name@ && p.wf(),
    {
        if is_player(name.as_str()) {
            Some(Player { name })
        } else {
            None
        }
    }

    /// The player's bus name.
    pub fn name(&self) -> (r: &str)
        ensures
            r@ == self@,
    {
        self.name.as_str()
    }

    /// The text that shows this player: its bus name and nothing else.
    pub fn to_string(&self) -> (r: String)
        ensures
            r@ == self@,
    {
        self.name.clone()
    }
}

/// The bus names of a sequence of players.
pub open spec fn names_of(players: Seq<Player>) -> Seq<Seq<char>> {
    players.map_values(|p: Player| p@)
}

/// The text of each name in a list of strings.
pub open spec fn texts_of(names: Seq<String>) -> Seq<Seq<char>> {
    names.map_values(|s: String| s@)
}

/// The players among the names that the bus registrar returned: exactly the
/// names of the MPRIS namespace, in the order in which they came.
pub fn get_players(names: &Vec<String>) -> (r: Vec<Player>)
    ensures
        names_of(r@) == player_names(texts_of(names@)),
        forall|i: int| 0 <= i < r@.len() ==> (#[trigger] r@[i]).wf(),
{
    let mut out: Vec<Player> = Vec::new();
    let mut i: usize = 0;
    while i < names.len()
        invariant
            i <= names@.len(),
            names_of(out@) == player_names(texts_of(names@.subrange(0, i as int))),
            forall|k: int| 0 <= k < out@.len() ==> (#[trigger] out@[k]).wf(),
        decreases names@.len() - i,
    {
        let ghost before = out@;
        proof {
            let s = texts_of(names@.subrange(0, i as int));
            let t = texts_of(names@.subrange(0, i as int + 1));
            assert(t == s.push(names@[i as int]@));
            s.lemma_filter_push(names@[i as int]@, |n: Seq<char>| is_player_name(n));
        }
        if is_player(names[i].as_str()) {
            let p = Player { name: names[i].clone() };
            out.push(p);
            proof {
                assert(names_of(out@) == names_of(before).push(names@[i as int]@));
            }
        }
        i = i + 1;
    }
    proof {
        assert(names@.subrange(0, names@.len() as int) == names@);
    }
    out
}

} // verus!
