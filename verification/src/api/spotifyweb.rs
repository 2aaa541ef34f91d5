//! The web-API backend.  The provider gives richer metadata than the
//! session bus but needs an OAuth handshake first: a browser redirect
//! carries a one-time code to a local listener, which hands it to the
//! caller over a one-shot channel to exchange for a token.
//!
//! Sockets, the browser and the token endpoint live outside this
//! crate.  Here stand the decisions: which `host:port` a redirect URI
//! binds, what a captured request yields, how the one-shot handoff
//! behaves, and how fetched playback data is cached.

use vstd::prelude::*;

use crate::api::{normal_opt, APIBase, SourceState, SourceStatus, TrackState, TrackStateV};
use crate::config::Config;
use crate::error::{Error, ErrorV};
use crate::text::{all_digits, find_char, find_from, lemma_find_from_props, split_on, split_str};

verus! {

// ---------------------------------------------------------------------
// Playback data
// ---------------------------------------------------------------------

/// Model of a [`PlayingItem`].
pub struct PlayingItemV {
    pub name: Seq<char>,
    pub artists: Seq<Seq<char>>,
}

/// The track item inside a playback answer.
#[derive(Debug)]
pub struct PlayingItem {
    /// The track's name.
    pub name: String,
    /// The artists on the track, in the provider's order.
    pub artists: Vec<String>,
}

impl View for PlayingItem {
    type V = PlayingItemV;

    open spec fn view(&self) -> PlayingItemV {
        PlayingItemV { name: self.name@, artists: self.artists.deep_view() }
    }
}

/// Model of a [`PlayingData`].
pub struct PlayingDataV {
    pub item: Option<PlayingItemV>,
    pub progress_ms: Option<u32>,
    pub is_playing: bool,
}

/// One successful playback answer from the provider.
#[derive(Debug)]
pub struct PlayingData {
    /// The current item, absent between tracks.
    pub item: Option<PlayingItem>,
    /// Progress into the item, in milliseconds.
    pub progress_ms: Option<u32>,
    /// Whether playback is running.
    pub is_playing: bool,
}

impl View for PlayingData {
    type V = PlayingDataV;

    open spec fn view(&self) -> PlayingDataV {
        PlayingDataV {
            item: match self.item {
                Some(ref i) => Some(i@),
                None => None,
            },
            progress_ms: self.progress_ms,
            is_playing: self.is_playing,
        }
    }
}

/// The first artist on the current item, if any.
pub open spec fn playing_artist(p: PlayingDataV) -> Option<Seq<char>> {
    match p.item {
        Some(i) => if i.artists.len() == 0 {
            None
        } else {
            Some(i.artists[0])
        },
        None => None,
    }
}

/// The title of the current item, if any.
pub open spec fn playing_title(p: PlayingDataV) -> Option<Seq<char>> {
    match p.item {
        Some(i) => Some(i.name),
        None => None,
    }
}

/// The track cache a playback answer maps to.
pub open spec fn track_of_playing(p: PlayingDataV) -> TrackStateV {
    TrackStateV {
        player_label: ("Spotify Web Player")@,
        artist: normal_opt(playing_artist(p)),
        title: normal_opt(playing_title(p)),
        position_ms: p.progress_ms,
        is_playing: p.is_playing,
    }
}

// ---------------------------------------------------------------------
// The backend
// ---------------------------------------------------------------------

/// The web-API backend.
pub struct SpotifyWeb {
    pub state: SourceState,
}

impl SpotifyWeb {
    /// The cached track as a playback answer presents it, before
    /// normalization.
    fn cache_of(fetched: PlayingData) -> (r: TrackState)
        ensures
            r@.player_label == ("Spotify Web Player")@,
            r@.artist == playing_artist(fetched@),
            r@.title == playing_title(fetched@),
            r@.position_ms == fetched@.progress_ms,
            r@.is_playing == fetched@.is_playing,
    {
        let (artist, title): (Option<String>, Option<String>) = match fetched.item {
            Some(mut i) => {
                let a = if i.artists.len() == 0 {
                    None
                } else {
                    Some(i.artists.remove(0))
                };
                (a, Some(i.name))
            },
            None => (None, None),
        };
        TrackState {
            player_label: String::from_str("Spotify Web Player"),
            artist,
            title,
            position_ms: fetched.progress_ms,
            is_playing: fetched.is_playing,
        }
    }

    /// Whether construction must run the browser flow: only a cached
    /// refresh token lets it be skipped.
    pub fn needs_auth_flow(config: &Config) -> (r: bool)
        ensures
            r == (config@.refresh_token is None),
    {
        config.refresh_token.is_none()
    }

    /// Hand the backend the first playback answer fetched while
    /// constructing it.  An empty answer is the legitimate
    /// `NoTrackPlaying` state; a transport failure is `FailedRequest`.
    pub fn connect(&mut self, fetched: Result<Option<PlayingData>, String>) -> (r: Result<
        (),
        Error,
    >)
        requires
            old(self).state.wf(),
        ensures
            final(self).state.wf(),
            match fetched {
                Ok(Some(d)) => {
                    &&& final(self).state.status is Connected
                    &&& final(self).state.track@ == track_of_playing(d@)
                    &&& r is Ok
                },
                Ok(None) => {
                    &&& final(self).state == old(self).state
                    &&& (r matches Err(e) && e@ == ErrorV::NoTrackPlaying)
                },
                Err(msg) => {
                    &&& final(self).state == old(self).state
                    &&& (r matches Err(e) && e@ == ErrorV::FailedRequest(msg@))
                },
            },
    {
        match fetched {
            Ok(Some(d)) => {
                let ghost dv = d@;
                let track = Self::cache_of(d);
                self.state.apply_refresh(Some(track));
                proof {
                    assert(final(self).state.track@ == track_of_playing(dv));
                }
                Ok(())
            },
            Ok(None) => Err(Error::NoTrackPlaying),
            Err(msg) => Err(Error::FailedRequest(msg)),
        }
    }

    /// Take the outcome of an explicit re-fetch of the playback state.
    pub fn refresh(&mut self, fetched: Option<PlayingData>)
        requires
            old(self).state.wf(),
        ensures
            final(self).state.wf(),
            match fetched {
                Some(d) => final(self).state.status is Connected && final(self).state.track@
                    == track_of_playing(d@),
                None => final(self).state.status is Stale && final(self).state.track@ == old(
                    self,
                ).state.track@,
            },
    {
        match fetched {
            Some(d) => {
                let ghost dv = d@;
                let track = Self::cache_of(d);
                self.state.apply_refresh(Some(track));
                proof {
                    assert(final(self).state.track@ == track_of_playing(dv));
                }
            },
            None => {
                self.state.apply_refresh(None);
            },
        }
    }
}

impl APIBase for SpotifyWeb {
    open spec fn status_spec(&self) -> SourceStatus {
        self.state.status
    }

    open spec fn track_spec(&self) -> TrackStateV {
        self.state.track@
    }

    open spec fn wf(&self) -> bool {
        self.state.wf()
    }

    /// Both web credentials must be configured; without them the
    /// handshake cannot even start.
    fn new(config: &Config) -> (r: Result<SpotifyWeb, Error>)
        ensures
            r is Ok <==> (config@.client_id is Some && config@.client_secret is Some),
            r matches Ok(b) ==> b.state.status is Uninitialized,
            r matches Err(e) ==> e@ is SpotifyWebAuth,
    {
        if config.client_id.is_none() {
            return Err(Error::SpotifyWebAuth);
        }
        if config.client_secret.is_none() {
            return Err(Error::SpotifyWebAuth);
        }
        Ok(SpotifyWeb { state: SourceState::empty("Spotify Web Player") })
    }

    fn get_player_name(&self) -> (r: String) {
        self.state.track.player_label.clone()
    }

    fn get_artist(&self) -> (r: Option<String>) {
        match &self.state.track.artist {
            Some(a) => Some(a.clone()),
            None => None,
        }
    }

    fn get_title(&self) -> (r: Option<String>) {
        match &self.state.track.title {
            Some(t) => Some(t.clone()),
            None => None,
        }
    }

    fn get_position(&self) -> (r: Option<u32>) {
        self.state.track.position_ms
    }

    fn is_playing(&self) -> (r: bool) {
        match self.state.status {
            SourceStatus::Connected => self.state.track.is_playing,
            _ => false,
        }
    }

    fn event_loop(&mut self) {
    }
}

// ---------------------------------------------------------------------
// The redirect URI's bind target
// ---------------------------------------------------------------------

/// The `host:port` a redirect URI binds: the accepted grammar is
/// exactly `scheme://host:port[/anything]`, the port one or more
/// decimal digits.  Everything else is rejected.
pub open spec fn bind_target(s: Seq<char>) -> Option<Seq<char>> {
    match find_from(s, 0, ':') {
        None => None,
        Some(i) => if !(i + 2 < s.len() && s[i + 1] == '/' && s[i + 2] == '/') {
            None
        } else {
            let start = i + 3;
            let end = match find_from(s, start, '/') {
                Some(j) => j,
                None => s.len() as int,
            };
            let seg = s.subrange(start, end);
            match find_from(seg, 0, ':') {
                None => None,
                Some(k) => if k > 0 && k + 1 < seg.len() && all_digits(seg.skip(k + 1)) {
                    Some(seg)
                } else {
                    None
                },
            }
        },
    }
}

/// Converting a redirect URI like `http://localhost:8888/callback/`
/// into `localhost:8888`, so that a listener can bind it.  A URI
/// without a `:port` after the host is rejected.
pub fn to_bind_format(bind_uri: &str) -> (r: Result<String, Error>)
    ensures
        match r {
            Ok(s) => bind_target(bind_uri@) == Some(s@),
            Err(e) => bind_target(bind_uri@) is None && e@ is InvalidRedirectUri,
        },
{
    let n = bind_uri.unicode_len();
    proof {
        lemma_find_from_props(bind_uri@, 0, ':');
    }
    let i = match find_char(bind_uri, 0, ':') {
        Some(i) => i,
        None => {
            return Err(Error::InvalidRedirectUri);
        },
    };
    if !(n - i > 2 && bind_uri.get_char(i + 1) == '/' && bind_uri.get_char(i + 2) == '/') {
        return Err(Error::InvalidRedirectUri);
    }
    let start = i + 3;
    proof {
        lemma_find_from_props(bind_uri@, start as int, '/');
    }
    let end = match find_char(bind_uri, start, '/') {
        Some(j) => j,
        None => n,
    };
    let seg: &str = bind_uri.substring_char(start, end);
    proof {
        assert(seg@ == bind_uri@.subrange(start as int, end as int));
        lemma_find_from_props(seg@, 0, ':');
    }
    let k = match find_char(seg, 0, ':') {
        Some(k) => k,
        None => {
            return Err(Error::InvalidRedirectUri);
        },
    };
    let m = seg.unicode_len();
    if k == 0 || k + 1 >= m {
        return Err(Error::InvalidRedirectUri);
    }
    if !crate::text::digits_from(seg, k + 1) {
        return Err(Error::InvalidRedirectUri);
    }
    Ok(seg.to_owned())
}

// ---------------------------------------------------------------------
// Extracting the authorization code from a captured request
// ---------------------------------------------------------------------

/// The first `code=`-parameter with a non-empty value.
pub open spec fn first_code_param(ps: Seq<Seq<char>>) -> Option<Seq<char>>
    decreases ps.len(),
{
    if ps.len() == 0 {
        None
    } else if crate::text::has_prefix(ps[0], ("code=")@) && ps[0].len() > ("code=")@.len() {
        Some(ps[0].skip(("code=")@.len() as int))
    } else {
        first_code_param(ps.skip(1))
    }
}

/// The authorization code carried by a raw HTTP request: the request
/// line's target is its second space-separated token, and the code is
/// the first non-empty `code=` parameter of the target's query.
pub open spec fn extract_code(req: Seq<char>) -> Option<Seq<char>> {
    match find_from(req, 0, ' ') {
        None => None,
        Some(sp1) => match find_from(req, sp1 + 1, ' ') {
            None => None,
            Some(sp2) => {
                let target = req.subrange(sp1 + 1, sp2);
                match find_from(target, 0, '?') {
                    None => None,
                    Some(q) => first_code_param(split_on(target.skip(q + 1), '&')),
                }
            },
        },
    }
}

/// Read the authorization code out of one captured request, or fail
/// the extraction for this connection alone.
#[verifier::loop_isolation(false)]
pub fn get_code(req: &str) -> (r: Result<String, Error>)
    ensures
        match r {
            Ok(c) => extract_code(req@) == Some(c@),
            Err(e) => extract_code(req@) is None && e@ is SpotifyWebAuth,
        },
{
    let rn = req.unicode_len();
    proof {
        lemma_find_from_props(req@, 0, ' ');
    }
    let sp1 = match find_char(req, 0, ' ') {
        Some(i) => i,
        None => {
            return Err(Error::SpotifyWebAuth);
        },
    };
    proof {
        lemma_find_from_props(req@, sp1 + 1, ' ');
    }
    let sp2 = match find_char(req, sp1 + 1, ' ') {
        Some(i) => i,
        None => {
            return Err(Error::SpotifyWebAuth);
        },
    };
    let target: &str = req.substring_char(sp1 + 1, sp2);
    proof {
        assert(target@ == req@.subrange(sp1 + 1, sp2 as int));
        lemma_find_from_props(target@, 0, '?');
    }
    let q = match find_char(target, 0, '?') {
        Some(i) => i,
        None => {
            return Err(Error::SpotifyWebAuth);
        },
    };
    let tn = target.unicode_len();
    let query: &str = target.substring_char(q + 1, tn);
    proof {
        assert(query@ =~= target@.skip(q + 1));
    }
    let params = split_str(query, '&');
    let ghost ps = split_on(query@, '&');
    let mut i: usize = 0;
    proof {
        assert(ps.skip(0) =~= ps);
    }
    while i < params.len()
        invariant
            0 <= i <= params.len(),
            params.deep_view() == ps,
            first_code_param(ps) == first_code_param(ps.skip(i as int)),
        decreases params.len() - i,
    {
        let p: &str = params[i].as_str();
        proof {
            assert(ps.skip(i as int)[0] == ps[i as int]);
            assert(ps[i as int] == p@);
            assert(ps.skip(i as int).skip(1) =~= ps.skip(i + 1));
            reveal_strlit("code=");
        }
        if crate::text::starts_with(p, "code=") && p.unicode_len() > 5 {
            let code = crate::text::suffix_after(p, "code=");
            proof {
                assert(("code=")@.len() == 5);
                assert(crate::text::has_prefix(ps.skip(i as int)[0], ("code=")@));
                assert(ps.skip(i as int)[0].len() > ("code=")@.len());
                assert(first_code_param(ps.skip(i as int)) == Some(code@));
                assert(first_code_param(ps) == Some(code@));
                assert(extract_code(req@) == first_code_param(ps));
            }
            return Ok(code);
        }
        i = i + 1;
    }
    proof {
        assert(ps.skip(params.len() as int) =~= Seq::<Seq<char>>::empty());
    }
    Err(Error::SpotifyWebAuth)
}

// ---------------------------------------------------------------------
// The one-shot listener
// ---------------------------------------------------------------------

/// The fixed page every handled connection is answered with.
pub open spec fn ack_html() -> Seq<char> {
    ("HTTP/1.1 200 OK\r\nContent-Type: text/html; charset=UTF-8\r\n\r\n<html><body>Authentication complete! Please go back to Vidify</body></html>")@
}

/// The fixed acknowledgement, success or not in extraction.
pub fn ack_response() -> (r: &'static str)
    ensures
        r@ == ack_html(),
{
    "HTTP/1.1 200 OK\r\nContent-Type: text/html; charset=UTF-8\r\n\r\n<html><body>Authentication complete! Please go back to Vidify</body></html>"
}

/// The listener's handoff state: it delivers at most one code, ever,
/// however many connections arrive.
pub struct CodeListener {
    delivered: bool,
}

impl CodeListener {
    /// Whether the one code has been handed over.
    pub closed spec fn done(&self) -> bool {
        self.delivered
    }

    pub fn new() -> (r: CodeListener)
        ensures
            !r.done(),
    {
        CodeListener { delivered: false }
    }

    /// Whether the one code has been handed over.
    pub fn is_done(&self) -> (r: bool)
        ensures
            r == self.done(),
    {
        self.delivered
    }

    /// Handle one accepted connection: the fixed acknowledgement is
    /// always answered, and where the request carries a code the
    /// listener hands it over and is spent; a malformed request leaves
    /// it accepting.
    pub fn handle(&mut self, req: &str) -> (r: (&'static str, Option<String>))
        requires
            !old(self).done(),
        ensures
            r.0@ == ack_html(),
            r.1.deep_view() == extract_code(req@),
            final(self).done() == (extract_code(req@) is Some),
    {
        match get_code(req) {
            Ok(code) => {
                self.delivered = true;
                (ack_response(), Some(code))
            },
            Err(_) => (ack_response(), None),
        }
    }
}

/// The code of the first request that yields one.
pub open spec fn first_code(reqs: Seq<Seq<char>>) -> Option<Seq<char>>
    decreases reqs.len(),
{
    if reqs.len() == 0 {
        None
    } else {
        match extract_code(reqs[0]) {
            Some(c) => Some(c),
            None => first_code(reqs.skip(1)),
        }
    }
}

/// Drive a fresh listener over the captured requests in arrival
/// order: at most one code is delivered, and it is the first one that
/// extracts; earlier malformed requests are answered and skipped.
pub fn run_listener(requests: &Vec<String>) -> (r: Option<String>)
    ensures
        r.deep_view() == first_code(requests.deep_view()),
{
    let ghost dv = requests.deep_view();
    let mut listener = CodeListener::new();
    let mut i: usize = 0;
    proof {
        assert(dv.skip(0) =~= dv);
    }
    while i < requests.len()
        invariant
            0 <= i <= requests.len(),
            dv == requests.deep_view(),
            dv.len() == requests.len(),
            !listener.done(),
            first_code(dv) == first_code(dv.skip(i as int)),
        decreases requests.len() - i,
    {
        proof {
            assert(dv.skip(i as int)[0] == dv[i as int]);
            assert(dv[i as int] == requests[i as int]@);
            assert(dv.skip(i as int).skip(1) =~= dv.skip(i + 1));
        }
        let (_ack, code) = listener.handle(requests[i].as_str());
        match code {
            Some(c) => {
                return Some(c);
            },
            None => {},
        }
        i = i + 1;
    }
    proof {
        assert(dv.skip(requests.len() as int) =~= Seq::<Seq<char>>::empty());
    }
    None
}

/// Exactly one delivery: when the requests before `i` are all
/// malformed and request `i` carries a code, that code and no other
/// is what the listener delivers.
pub proof fn lemma_single_delivery(reqs: Seq<Seq<char>>, i: int)
    requires
        0 <= i < reqs.len(),
        extract_code(reqs[i]) is Some,
        forall|j: int| 0 <= j < i ==> extract_code(#[trigger] reqs[j]) is None,
    ensures
        first_code(reqs) == extract_code(reqs[i]),
    decreases i,
{
    if i == 0 {
    } else {
        assert(extract_code(reqs[0]) is None);
        assert(reqs.skip(1)[i - 1] == reqs[i]);
        assert forall|j: int| 0 <= j < i - 1 implies extract_code(#[trigger] reqs.skip(1)[j])
            is None by {
            assert(reqs.skip(1)[j] == reqs[j + 1]);
        }
        lemma_single_delivery(reqs.skip(1), i - 1);
    }
}

// ---------------------------------------------------------------------
// Tokens
// ---------------------------------------------------------------------

/// The token pair one code exchange yields.  It lives only while the
/// backend is being constructed; the refresh token is the only part
/// the caller may persist, and persisting it is the caller's job.
#[derive(Debug)]
pub struct AuthToken {
    pub access_token: String,
    pub refresh_token: Option<String>,
    /// Seconds since the epoch at which the access token lapses.
    pub expires_at: i64,
}

} // verus!
