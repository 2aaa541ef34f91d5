//! The closed set of output video players.  Like the backend
//! identifiers, player names are parsed case-sensitively and unknown
//! names are a hard parse error.

pub mod external;
pub mod mpv;

use vstd::prelude::*;

use crate::config::Config;
use crate::error::Error;

verus! {

/// The available output players.
#[derive(Clone, Copy, Debug, PartialEq, Eq, Structural)]
pub enum Player {
    Mpv,
    External,
}

/// The textual name of each player.
pub open spec fn player_name(p: Player) -> Seq<char> {
    match p {
        Player::Mpv => ("Mpv")@,
        Player::External => ("External")@,
    }
}

/// The player whose name is `s`, if any; parsing is case-sensitive.
pub open spec fn player_of_name(s: Seq<char>) -> Option<Player> {
    if s == ("Mpv")@ {
        Some(Player::Mpv)
    } else if s == ("External")@ {
        Some(Player::External)
    } else {
        None
    }
}

impl Player {
    /// The identifier's name.
    pub fn as_str(&self) -> (r: &'static str)
        ensures
            r@ == player_name(*self),
    {
        match self {
            Player::Mpv => "Mpv",
            Player::External => "External",
        }
    }

    /// Parse an identifier from its name; unknown text is `None`.
    pub fn from_name(s: &str) -> (r: Option<Player>)
        ensures
            r == player_of_name(s@),
    {
        if crate::text::str_eq(s, "Mpv") {
            Some(Player::Mpv)
        } else if crate::text::str_eq(s, "External") {
            Some(Player::External)
        } else {
            None
        }
    }
}

/// Names are parsed back to the identifier they were printed from.
pub proof fn lemma_player_name_round_trip(p: Player)
    ensures
        player_of_name(player_name(p)) == Some(p),
{
    reveal_strlit("Mpv");
    reveal_strlit("External");
    assert(("Mpv")@.len() == 3);
    assert(("External")@.len() == 8);
}

/// The uniform control surface of a constructed player.
pub trait PlayerBase: Sized {
    /// Whether playback is currently paused.
    spec fn paused_spec(&self) -> bool;

    fn new(config: &Config) -> (r: Result<Self, Error>);

    fn pause(&mut self);

    fn is_paused(&self) -> (r: bool)
        ensures
            r == self.paused_spec(),
    ;

    fn position(&self) -> u32;

    fn seek(&mut self);

    fn start_video(&mut self);
}

} // verus!
