//! The closed set of media-source backends and the uniform query
//! protocol they share.  A backend identifier is parsed case-sensitively
//! from text; unknown names are a hard parse error for the resolver.

pub mod macos;
pub mod mpris;
pub mod spotifyweb;
pub mod windows;

use vstd::prelude::*;

use crate::config::Config;
use crate::error::Error;

verus! {

/// The available media sources.
#[derive(Clone, Copy, Debug, PartialEq, Eq, Structural)]
pub enum API {
    MPRIS,
    Windows,
    MacOS,
    SpotifyWeb,
}

/// The textual name of each backend, exactly as written in the
/// settings file and on the command line.
pub open spec fn api_name(a: API) -> Seq<char> {
    match a {
        API::MPRIS => ("MPRIS")@,
        API::Windows => ("Windows")@,
        API::MacOS => ("MacOS")@,
        API::SpotifyWeb => ("SpotifyWeb")@,
    }
}

/// The backend whose name is `s`, if any; parsing is case-sensitive.
pub open spec fn api_of_name(s: Seq<char>) -> Option<API> {
    if s == ("MPRIS")@ {
        Some(API::MPRIS)
    } else if s == ("Windows")@ {
        Some(API::Windows)
    } else if s == ("MacOS")@ {
        Some(API::MacOS)
    } else if s == ("SpotifyWeb")@ {
        Some(API::SpotifyWeb)
    } else {
        None
    }
}

impl API {
    /// The identifier's name.
    pub fn as_str(&self) -> (r: &'static str)
        ensures
            r@ == api_name(*self),
    {
        match self {
            API::MPRIS => "MPRIS",
            API::Windows => "Windows",
            API::MacOS => "MacOS",
            API::SpotifyWeb => "SpotifyWeb",
        }
    }

    /// Parse an identifier from its name; unknown text is `None`.
    pub fn from_name(s: &str) -> (r: Option<API>)
        ensures
            r == api_of_name(s@),
    {
        if crate::text::str_eq(s, "MPRIS") {
            Some(API::MPRIS)
        } else if crate::text::str_eq(s, "Windows") {
            Some(API::Windows)
        } else if crate::text::str_eq(s, "MacOS") {
            Some(API::MacOS)
        } else if crate::text::str_eq(s, "SpotifyWeb") {
            Some(API::SpotifyWeb)
        } else {
            None
        }
    }
}

// ---------------------------------------------------------------------
// The uniform data model
// ---------------------------------------------------------------------

/// Model of a [`TrackState`].
pub struct TrackStateV {
    pub player_label: Seq<char>,
    pub artist: Option<Seq<char>>,
    pub title: Option<Seq<char>>,
    pub position_ms: Option<u32>,
    pub is_playing: bool,
}

/// What a backend knows about the current track.  `None` means the
/// backend cannot observe the field: absence and empty-but-known are
/// distinct and are never conflated.
#[derive(Debug)]
pub struct TrackState {
    pub player_label: String,
    pub artist: Option<String>,
    pub title: Option<String>,
    pub position_ms: Option<u32>,
    pub is_playing: bool,
}

impl View for TrackState {
    type V = TrackStateV;

    open spec fn view(&self) -> TrackStateV {
        TrackStateV {
            player_label: self.player_label@,
            artist: self.artist.deep_view(),
            title: self.title.deep_view(),
            position_ms: self.position_ms,
            is_playing: self.is_playing,
        }
    }
}

/// Lifecycle of a backend's session: freshly built, connected, or left
/// with stale values after a failed refresh.
#[derive(Clone, Copy, Debug, PartialEq, Eq, Structural)]
pub enum SourceStatus {
    Uninitialized,
    Connected,
    Stale,
}

/// An empty text observed for an optional field stands for absence.
pub open spec fn normal_opt(o: Option<Seq<char>>) -> Option<Seq<char>> {
    match o {
        Some(s) => if s.len() == 0 {
            None
        } else {
            Some(s)
        },
        None => None,
    }
}

/// A cache is well formed when absence is always encoded as `None`,
/// never as an empty string.
pub open spec fn track_wf(t: TrackStateV) -> bool {
    &&& (t.artist matches Some(a) ==> a.len() > 0)
    &&& (t.title matches Some(s) ==> s.len() > 0)
}

/// Drop empty texts from the optional fields of a fetched track.
pub open spec fn normalized(t: TrackStateV) -> TrackStateV {
    TrackStateV {
        player_label: t.player_label,
        artist: normal_opt(t.artist),
        title: normal_opt(t.title),
        position_ms: t.position_ms,
        is_playing: t.is_playing,
    }
}

fn normalize_opt(o: Option<String>) -> (r: Option<String>)
    ensures
        r.deep_view() == normal_opt(o.deep_view()),
        r matches Some(s) ==> s@.len() > 0,
{
    match o {
        Some(s) => if s.as_str().unicode_len() == 0 {
            None
        } else {
            Some(s)
        },
        None => None,
    }
}

/// The session state every connected backend keeps: where it stands in
/// its lifecycle, and the values cached by the last refresh.
pub struct SourceState {
    pub status: SourceStatus,
    pub track: TrackState,
}

impl SourceState {
    /// The cached optional fields never hold an empty string.
    pub open spec fn wf(&self) -> bool {
        track_wf(self.track@)
    }

    /// A fresh, not yet connected state under the given label.
    pub fn empty(label: &str) -> (r: SourceState)
        ensures
            r.wf(),
            r.status is Uninitialized,
            r.track@.player_label == label@,
            r.track@.artist is None,
            r.track@.title is None,
            r.track@.position_ms is None,
            !r.track@.is_playing,
    {
        SourceState {
            status: SourceStatus::Uninitialized,
            track: TrackState {
                player_label: label.to_owned(),
                artist: None,
                title: None,
                position_ms: None,
                is_playing: false,
            },
        }
    }

    /// Take the outcome of an explicit refresh: new values connect the
    /// backend, a failure leaves the old values and marks them stale.
    pub fn apply_refresh(&mut self, fetched: Option<TrackState>)
        requires
            old(self).wf(),
        ensures
            final(self).wf(),
            match fetched {
                Some(t) => final(self).status is Connected && final(self).track@ == normalized(
                    t@,
                ),
                None => final(self).status is Stale && final(self).track@ == old(self).track@,
            },
    {
        match fetched {
            Some(t) => {
                self.status = SourceStatus::Connected;
                self.track = TrackState {
                    player_label: t.player_label,
                    artist: normalize_opt(t.artist),
                    title: normalize_opt(t.title),
                    position_ms: t.position_ms,
                    is_playing: t.is_playing,
                };
            },
            None => {
                self.status = SourceStatus::Stale;
            },
        }
    }
}

/// The uniform read-only query surface of a constructed backend.  The
/// getters are side-effect-free reads of the cached state; re-fetching
/// from the underlying source is always a distinct, explicit call,
/// never implicit inside a getter.
pub trait APIBase: Sized {
    /// Model of the session's lifecycle state.
    spec fn status_spec(&self) -> SourceStatus;

    /// Model of the values cached by the last refresh.
    spec fn track_spec(&self) -> TrackStateV;

    /// The cache encodes absence as `None`, never as an empty string.
    spec fn wf(&self) -> bool;

    /// Build the backend from the configuration alone.  Construction
    /// is the only place allowed to fail with a connection-class
    /// error.
    fn new(config: &Config) -> (r: Result<Self, Error>)
        ensures
            r matches Ok(s) ==> s.wf(),
    ;

    /// The label of the observed player.
    fn get_player_name(&self) -> (r: String)
        requires
            self.wf(),
        ensures
            r@ == self.track_spec().player_label,
    ;

    /// The current artist, or `None` where unobservable.
    fn get_artist(&self) -> (r: Option<String>)
        requires
            self.wf(),
        ensures
            r.deep_view() == self.track_spec().artist,
            r matches Some(a) ==> a@.len() > 0,
    ;

    /// The current title, or `None` where unobservable.
    fn get_title(&self) -> (r: Option<String>)
        requires
            self.wf(),
        ensures
            r.deep_view() == self.track_spec().title,
            r matches Some(t) ==> t@.len() > 0,
    ;

    /// Position in the track in milliseconds; `None` strictly means
    /// unknown, never "at the start".
    fn get_position(&self) -> (r: Option<u32>)
        requires
            self.wf(),
        ensures
            r == self.track_spec().position_ms,
    ;

    /// Whether something is playing.  After a failed refresh the
    /// backend is stale and playback is presumed stopped until a
    /// successful refresh proves otherwise.
    fn is_playing(&self) -> (r: bool)
        requires
            self.wf(),
        ensures
            r == (self.status_spec() is Connected && self.track_spec().is_playing),
    ;

    /// Placeholder for a recurring update; a backend without one
    /// leaves the state untouched rather than aborting.
    fn event_loop(&mut self)
        requires
            old(self).wf(),
        ensures
            final(self).wf(),
    ;
}

// ---------------------------------------------------------------------
// Dispatch over the closed backend set
// ---------------------------------------------------------------------

/// One constructed backend out of the closed set, behind the uniform
/// query surface.
pub enum Backend {
    MPRIS(mpris::MPRIS),
    Windows(windows::Windows),
    MacOS(macos::MacOS),
    SpotifyWeb(spotifyweb::SpotifyWeb),
}

impl Backend {
    pub open spec fn wf(&self) -> bool {
        match self {
            Backend::MPRIS(b) => b.wf(),
            Backend::Windows(b) => b.wf(),
            Backend::MacOS(b) => b.wf(),
            Backend::SpotifyWeb(b) => b.wf(),
        }
    }

    pub open spec fn status_spec(&self) -> SourceStatus {
        match self {
            Backend::MPRIS(b) => b.status_spec(),
            Backend::Windows(b) => b.status_spec(),
            Backend::MacOS(b) => b.status_spec(),
            Backend::SpotifyWeb(b) => b.status_spec(),
        }
    }

    pub open spec fn track_spec(&self) -> TrackStateV {
        match self {
            Backend::MPRIS(b) => b.track_spec(),
            Backend::Windows(b) => b.track_spec(),
            Backend::MacOS(b) => b.track_spec(),
            Backend::SpotifyWeb(b) => b.track_spec(),
        }
    }

    /// The label of the observed player.
    pub fn get_player_name(&self) -> (r: String)
        requires
            self.wf(),
        ensures
            r@ == self.track_spec().player_label,
    {
        match self {
            Backend::MPRIS(b) => b.get_player_name(),
            Backend::Windows(b) => b.get_player_name(),
            Backend::MacOS(b) => b.get_player_name(),
            Backend::SpotifyWeb(b) => b.get_player_name(),
        }
    }

    /// The current artist; `None` strictly means unknown.
    pub fn get_artist(&self) -> (r: Option<String>)
        requires
            self.wf(),
        ensures
            r.deep_view() == self.track_spec().artist,
            r matches Some(a) ==> a@.len() > 0,
    {
        match self {
            Backend::MPRIS(b) => b.get_artist(),
            Backend::Windows(b) => b.get_artist(),
            Backend::MacOS(b) => b.get_artist(),
            Backend::SpotifyWeb(b) => b.get_artist(),
        }
    }

    /// The current title; `None` strictly means unknown.
    pub fn get_title(&self) -> (r: Option<String>)
        requires
            self.wf(),
        ensures
            r.deep_view() == self.track_spec().title,
            r matches Some(t) ==> t@.len() > 0,
    {
        match self {
            Backend::MPRIS(b) => b.get_title(),
            Backend::Windows(b) => b.get_title(),
            Backend::MacOS(b) => b.get_title(),
            Backend::SpotifyWeb(b) => b.get_title(),
        }
    }

    /// Position in the track in milliseconds, where observable.
    pub fn get_position(&self) -> (r: Option<u32>)
        requires
            self.wf(),
        ensures
            r == self.track_spec().position_ms,
    {
        match self {
            Backend::MPRIS(b) => b.get_position(),
            Backend::Windows(b) => b.get_position(),
            Backend::MacOS(b) => b.get_position(),
            Backend::SpotifyWeb(b) => b.get_position(),
        }
    }

    /// Whether something is playing; always `false` while the backend
    /// is stale, whatever was cached before the failed refresh.
    pub fn is_playing(&self) -> (r: bool)
        requires
            self.wf(),
        ensures
            r == (self.status_spec() is Connected && self.track_spec().is_playing),
    {
        match self {
            Backend::MPRIS(b) => b.is_playing(),
            Backend::Windows(b) => b.is_playing(),
            Backend::MacOS(b) => b.is_playing(),
            Backend::SpotifyWeb(b) => b.is_playing(),
        }
    }
}

/// A stale backend never reports playback, whatever its cache holds.
pub proof fn lemma_stale_is_not_playing(b: Backend)
    requires
        b.status_spec() is Stale,
    ensures
        !(b.status_spec() is Connected && b.track_spec().is_playing),
{
}

/// Construct the chosen backend from the configuration.  The
/// session-bus and web backends come back not yet connected; their
/// first fetch is handed to them by the caller.  The web backend
/// refuses construction without both credentials.
pub fn init_api(api: API, config: &Config) -> (r: Result<Backend, Error>)
    ensures
        r matches Ok(b) ==> b.wf(),
        match api {
            API::MPRIS => r matches Ok(b) && b matches Backend::MPRIS(m) && m.status_spec()
                is Uninitialized,
            API::Windows => r matches Ok(b) && b matches Backend::Windows(w),
            API::MacOS => r matches Ok(b) && b matches Backend::MacOS(m),
            API::SpotifyWeb => {
                &&& (r is Ok <==> (config@.client_id is Some && config@.client_secret is Some))
                &&& (r matches Ok(b) ==> b matches Backend::SpotifyWeb(s) && s.status_spec()
                    is Uninitialized)
                &&& (r matches Err(e) ==> e@ is SpotifyWebAuth)
            },
        },
{
    match api {
        API::MPRIS => match mpris::MPRIS::new(config) {
            Ok(b) => Ok(Backend::MPRIS(b)),
            Err(e) => Err(e),
        },
        API::Windows => match windows::Windows::new(config) {
            Ok(b) => Ok(Backend::Windows(b)),
            Err(e) => Err(e),
        },
        API::MacOS => match macos::MacOS::new(config) {
            Ok(b) => Ok(Backend::MacOS(b)),
            Err(e) => Err(e),
        },
        API::SpotifyWeb => match spotifyweb::SpotifyWeb::new(config) {
            Ok(b) => Ok(Backend::SpotifyWeb(b)),
            Err(e) => Err(e),
        },
    }
}

/// Names are parsed back to the identifier they were printed from.
pub proof fn lemma_api_name_round_trip(a: API)
    ensures
        api_of_name(api_name(a)) == Some(a),
{
    reveal_strlit("MPRIS");
    reveal_strlit("Windows");
    reveal_strlit("MacOS");
    reveal_strlit("SpotifyWeb");
    assert(("MPRIS")@.len() == 5);
    assert(("Windows")@.len() == 7);
    assert(("MacOS")@.len() == 5);
    assert(("SpotifyWeb")@.len() == 10);
    assert(("MPRIS")@[0] == 'M' && ("MacOS")@[1] == 'a' && ("MPRIS")@[1] == 'P');
}

} // verus!
