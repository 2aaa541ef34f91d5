//! Error taxonomy shared by configuration resolution, backend
//! construction and the auth flow.  Parsing and construction failures
//! are always surfaced as values of this enum; only the absence of an
//! optional configuration key is a non-error.

use vstd::prelude::*;

verus! {

/// Mathematical model of an [`Error`]: the same variants over
/// sequences of characters.
pub enum ErrorV {
    ConfigParse(Seq<char>, Seq<char>),
    IO(Seq<char>),
    FailedRequest(Seq<char>),
    NoTrackPlaying,
    SpotifyWebAuth,
    FailedConnection(Seq<char>),
    InvalidRedirectUri,
}

/// The different errors that may happen.  Some are specific to one
/// backend so that callers can handle them apart: `NoTrackPlaying` is
/// an expected state, not a defect, and must stay distinguishable from
/// `FailedConnection`.
#[derive(Debug, PartialEq, Eq)]
pub enum Error {
    /// A present configuration value failed type-directed parsing:
    /// the field's name and the offending raw text.
    ConfigParse(String, String),
    /// A filesystem or network failure outside the auth flow.
    IO(String),
    /// A web request to the provider failed at the transport level.
    FailedRequest(String),
    /// The provider answered but reports no active playback.
    NoTrackPlaying,
    /// The OAuth handshake could not complete.
    SpotifyWebAuth,
    /// A backend could not establish or keep its underlying session.
    FailedConnection(String),
    /// The redirect URI holds no `host:port` a listener could bind.
    InvalidRedirectUri,
}

impl View for Error {
    type V = ErrorV;

    open spec fn view(&self) -> ErrorV {
        match self {
            Error::ConfigParse(f, r) => ErrorV::ConfigParse(f@, r@),
            Error::IO(m) => ErrorV::IO(m@),
            Error::FailedRequest(m) => ErrorV::FailedRequest(m@),
            Error::NoTrackPlaying => ErrorV::NoTrackPlaying,
            Error::SpotifyWebAuth => ErrorV::SpotifyWebAuth,
            Error::FailedConnection(m) => ErrorV::FailedConnection(m@),
            Error::InvalidRedirectUri => ErrorV::InvalidRedirectUri,
        }
    }
}

/// What [`Error::message`] returns for each variant.
pub open spec fn message_of(e: ErrorV) -> Seq<char> {
    match e {
        ErrorV::ConfigParse(f, r) => ("Failed parsing the configuration: invalid value '")@ + r
            + ("' for option '")@ + f + ("'")@,
        ErrorV::IO(m) => ("IO error: ")@ + m,
        ErrorV::FailedRequest(m) => ("Failed request: ")@ + m,
        ErrorV::NoTrackPlaying => ("No track currently playing")@,
        ErrorV::SpotifyWebAuth => ("Couldn't authenticate Spotify Web API")@,
        ErrorV::FailedConnection(m) => ("Failed to connect: ")@ + m,
        ErrorV::InvalidRedirectUri => ("Invalid redirect URI, no host:port to bind")@,
    }
}

impl Error {
    /// A human-readable description of the error.
    pub fn message(&self) -> (r: String)
        ensures
            r@ == message_of(self@),
    {
        match self {
            Error::ConfigParse(f, r) => {
                let mut s = String::from_str("Failed parsing the configuration: invalid value '");
                s.append(r.as_str());
                s.append("' for option '");
                s.append(f.as_str());
                s.append("'");
                s
            },
            Error::IO(m) => {
                let mut s = String::from_str("IO error: ");
                s.append(m.as_str());
                s
            },
            Error::FailedRequest(m) => {
                let mut s = String::from_str("Failed request: ");
                s.append(m.as_str());
                s
            },
            Error::NoTrackPlaying => String::from_str("No track currently playing"),
            Error::SpotifyWebAuth => String::from_str("Couldn't authenticate Spotify Web API"),
            Error::FailedConnection(m) => {
                let mut s = String::from_str("Failed to connect: ");
                s.append(m.as_str());
                s
            },
            Error::InvalidRedirectUri => String::from_str(
                "Invalid redirect URI, no host:port to bind",
            ),
        }
    }
}

} // verus!
