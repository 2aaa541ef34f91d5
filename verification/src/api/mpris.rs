//! The session-bus backend: the desktop's inter-process messaging
//! convention for querying the active media player.  Talking to the
//! bus is I/O and happens outside this crate; what it yields arrives
//! here as a plain [`MprisMetadata`] record, and everything decided
//! from it is verified.

use vstd::prelude::*;

use crate::api::{normal_opt, APIBase, SourceState, SourceStatus, TrackState, TrackStateV};
use crate::config::Config;
use crate::error::Error;

verus! {

/// Model of an [`MprisMetadata`].
pub struct MprisMetadataV {
    pub bus_name: Seq<char>,
    pub album_artists: Option<Seq<Seq<char>>>,
    pub title: Option<Seq<char>>,
    pub position_ms: Option<u32>,
    pub is_running: bool,
}

/// What one successful round over the session bus observes.
#[derive(Debug)]
pub struct MprisMetadata {
    /// The bus name of the player that was found.
    pub bus_name: String,
    /// The album artists as listed by the player, if any.
    pub album_artists: Option<Vec<String>>,
    /// The track's title, if listed.
    pub title: Option<String>,
    /// Position in the track, in milliseconds.
    pub position_ms: Option<u32>,
    /// Whether the player is running.
    pub is_running: bool,
}

impl View for MprisMetadata {
    type V = MprisMetadataV;

    open spec fn view(&self) -> MprisMetadataV {
        MprisMetadataV {
            bus_name: self.bus_name@,
            album_artists: self.album_artists.deep_view(),
            title: self.title.deep_view(),
            position_ms: self.position_ms,
            is_running: self.is_running,
        }
    }
}

/// The first of the listed album artists, if the list is there and not
/// empty.
pub open spec fn first_artist(o: Option<Seq<Seq<char>>>) -> Option<Seq<char>> {
    match o {
        Some(l) => if l.len() == 0 {
            None
        } else {
            Some(l[0])
        },
        None => None,
    }
}

/// The track cache a metadata record maps to: the first album artist,
/// the title, with empty texts standing for absence.
pub open spec fn track_of_metadata(m: MprisMetadataV) -> TrackStateV {
    TrackStateV {
        player_label: m.bus_name,
        artist: normal_opt(first_artist(m.album_artists)),
        title: normal_opt(m.title),
        position_ms: m.position_ms,
        is_playing: m.is_running,
    }
}

/// The session-bus backend.
pub struct MPRIS {
    pub state: SourceState,
}

impl MPRIS {
    /// The cached track as a fetched record presents it.
    fn cache_of(fetched: MprisMetadata) -> (r: TrackState)
        ensures
            normalized_eq(r@, fetched@),
    {
        let artist: Option<String> = match fetched.album_artists {
            Some(mut l) => if l.len() == 0 {
                None
            } else {
                Some(l.remove(0))
            },
            None => None,
        };
        TrackState {
            player_label: fetched.bus_name,
            artist,
            title: fetched.title,
            position_ms: fetched.position_ms,
            is_playing: fetched.is_running,
        }
    }

    /// Hand the backend the outcome of the bus search made while
    /// constructing it.  A failure message becomes `FailedConnection`
    /// and the backend stays unusable.
    pub fn connect(&mut self, found: Result<MprisMetadata, String>) -> (r: Result<(), Error>)
        requires
            old(self).state.wf(),
        ensures
            final(self).state.wf(),
            match found {
                Ok(m) => {
                    &&& final(self).state.status is Connected
                    &&& final(self).state.track@ == track_of_metadata(m@)
                    &&& r is Ok
                },
                Err(msg) => {
                    &&& final(self).state == old(self).state
                    &&& (r matches Err(e) && e@ == crate::error::ErrorV::FailedConnection(msg@))
                },
            },
    {
        match found {
            Ok(m) => {
                let ghost mv = m@;
                let track = Self::cache_of(m);
                self.state.apply_refresh(Some(track));
                proof {
                    assert(final(self).state.track@ == track_of_metadata(mv));
                }
                Ok(())
            },
            Err(msg) => Err(Error::FailedConnection(msg)),
        }
    }

    /// Take the outcome of an explicit re-fetch over the bus.
    pub fn refresh(&mut self, fetched: Option<MprisMetadata>)
        requires
            old(self).state.wf(),
        ensures
            final(self).state.wf(),
            match fetched {
                Some(m) => final(self).state.status is Connected && final(self).state.track@
                    == track_of_metadata(m@),
                None => final(self).state.status is Stale && final(self).state.track@ == old(
                    self,
                ).state.track@,
            },
    {
        match fetched {
            Some(m) => {
                let ghost mv = m@;
                let track = Self::cache_of(m);
                self.state.apply_refresh(Some(track));
                proof {
                    assert(final(self).state.track@ == track_of_metadata(mv));
                }
            },
            None => {
                self.state.apply_refresh(None);
            },
        }
    }
}

/// The normalization `cache_of` promises, stated over the models.
pub open spec fn normalized_eq(t: TrackStateV, m: MprisMetadataV) -> bool {
    t == TrackStateV {
        player_label: m.bus_name,
        artist: first_artist(m.album_artists),
        title: m.title,
        position_ms: m.position_ms,
        is_playing: m.is_running,
    }
}

impl APIBase for MPRIS {
    open spec fn status_spec(&self) -> SourceStatus {
        self.state.status
    }

    open spec fn track_spec(&self) -> TrackStateV {
        self.state.track@
    }

    open spec fn wf(&self) -> bool {
        self.state.wf()
    }

    fn new(config: &Config) -> (r: Result<MPRIS, Error>)
        ensures
            r matches Ok(b) && b.state.status is Uninitialized,
    {
        Ok(MPRIS { state: SourceState::empty("") })
    }

    fn get_player_name(&self) -> (r: String) {
        self.state.track.player_label.clone()
    }

    fn get_artist(&self) -> (r: Option<String>) {
        match &self.state.track.artist {
            Some(a) => Some(a.clone()),
            None => None,
        }
    }

    fn get_title(&self) -> (r: Option<String>) {
        match &self.state.track.title {
            Some(t) => Some(t.clone()),
            None => None,
        }
    }

    fn get_position(&self) -> (r: Option<u32>) {
        self.state.track.position_ms
    }

    fn is_playing(&self) -> (r: bool) {
        match self.state.status {
            SourceStatus::Connected => self.state.track.is_playing,
            _ => false,
        }
    }

    fn event_loop(&mut self) {
    }
}

} // verus!
