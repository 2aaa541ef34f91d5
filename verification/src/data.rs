//! Presentation-facing data: what a backend or player card shows, and
//! the messages a view loop dispatches.  Linked 1:1 to the backend and
//! player sets.

use vstd::prelude::*;

use crate::api::TrackState;
use crate::base::CardInfo;

verus! {

/// What the selection card of one backend shows.
#[derive(Debug)]
pub struct APIData {
    pub description: String,
    pub icon: String,
    pub connect_msg: String,
    pub event_loop_interval: String,
}

impl CardInfo for APIData {
    open spec fn description_spec(&self) -> Seq<char> {
        self.description@
    }

    open spec fn icon_spec(&self) -> Seq<char> {
        self.icon@
    }

    fn get_description(&self) -> (r: &str) {
        self.description.as_str()
    }

    fn get_icon(&self) -> (r: &str) {
        self.icon.as_str()
    }
}

/// What the selection card of one player shows.
#[derive(Debug)]
pub struct PlayerData {
    pub description: String,
    pub icon: String,
}

impl CardInfo for PlayerData {
    open spec fn description_spec(&self) -> Seq<char> {
        self.description@
    }

    open spec fn icon_spec(&self) -> Seq<char> {
        self.icon@
    }

    fn get_description(&self) -> (r: &str) {
        self.description.as_str()
    }

    fn get_icon(&self) -> (r: &str) {
        self.icon.as_str()
    }
}

/// What a backend's polling loop reports to the view.
#[derive(Debug)]
pub enum APIEvent {
    /// A refresh succeeded and this is the new cached track.
    TrackUpdated(TrackState),
    /// A refresh failed; the backend is stale until one succeeds.
    RefreshFailed,
}

/// The messages the view's update loop receives.
#[derive(Debug)]
pub enum Msg {
    Quit,
    PlayerUpdate(APIEvent),
}

} // verus!
