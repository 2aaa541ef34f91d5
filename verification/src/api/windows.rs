//! Platform stub for Windows.  It cannot observe any track field yet;
//! every optional query answers `None`, which callers must treat as
//! "unknown", not as a transient error.

use vstd::prelude::*;

use crate::api::{APIBase, SourceStatus, TrackStateV};
use crate::config::Config;
use crate::error::Error;

verus! {

pub struct Windows {}

impl APIBase for Windows {
    open spec fn status_spec(&self) -> SourceStatus {
        SourceStatus::Connected
    }

    open spec fn track_spec(&self) -> TrackStateV {
        TrackStateV {
            player_label: ("test")@,
            artist: None,
            title: None,
            position_ms: None,
            is_playing: true,
        }
    }

    open spec fn wf(&self) -> bool {
        true
    }

    fn new(config: &Config) -> (r: Result<Windows, Error>)
        ensures
            r is Ok,
    {
        Ok(Windows {  })
    }

    fn get_player_name(&self) -> (r: String) {
        String::from_str("test")
    }

    fn get_artist(&self) -> (r: Option<String>) {
        None
    }

    fn get_title(&self) -> (r: Option<String>) {
        None
    }

    fn get_position(&self) -> (r: Option<u32>) {
        None
    }

    fn is_playing(&self) -> (r: bool) {
        true
    }

    fn event_loop(&mut self) {
    }
}

} // verus!
