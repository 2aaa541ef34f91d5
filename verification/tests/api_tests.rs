use vidify::api::mpris::{MprisMetadata, MPRIS};
use vidify::base::CardInfo;
use vidify::data::{APIData, APIEvent, Msg, PlayerData};
use vidify::api::spotifyweb::{PlayingData, PlayingItem, SpotifyWeb};
use vidify::api::{init_api, APIBase, Backend, API};
use vidify::config::{CliValues, Config, FileValues};
use vidify::error::Error;
use vidify::player::external::External;
use vidify::player::mpv::Mpv;
use vidify::player::PlayerBase;

fn plain_config() -> Config {
    Config::resolve(&CliValues::empty(), &FileValues::empty()).unwrap()
}

fn web_config() -> Config {
    let mut f = FileValues::empty();
    f.client_id = Some(String::from("id"));
    f.client_secret = Some(String::from("secret"));
    Config::resolve(&CliValues::empty(), &f).unwrap()
}

#[test]
fn stubs_answer_none_without_panicking_across_repeated_calls() {
    let config = plain_config();
    let mac = vidify::api::macos::MacOS::new(&config).unwrap();
    let win = vidify::api::windows::Windows::new(&config).unwrap();
    for _ in 0..3 {
        assert_eq!(mac.get_player_name(), "Mac OS");
        assert_eq!(mac.get_artist(), None);
        assert_eq!(mac.get_title(), None);
        assert_eq!(mac.get_position(), None);
        assert!(mac.is_playing());
        assert_eq!(win.get_player_name(), "test");
        assert_eq!(win.get_artist(), None);
        assert_eq!(win.get_title(), None);
        assert_eq!(win.get_position(), None);
        assert!(win.is_playing());
    }
}

#[test]
fn init_api_constructs_each_backend() {
    let config = web_config();
    assert!(matches!(
        init_api(API::MPRIS, &config),
        Ok(Backend::MPRIS(_))
    ));
    assert!(matches!(
        init_api(API::Windows, &config),
        Ok(Backend::Windows(_))
    ));
    assert!(matches!(
        init_api(API::MacOS, &config),
        Ok(Backend::MacOS(_))
    ));
    assert!(matches!(
        init_api(API::SpotifyWeb, &config),
        Ok(Backend::SpotifyWeb(_))
    ));
}

#[test]
fn web_backend_needs_both_credentials() {
    let config = plain_config();
    assert!(matches!(
        init_api(API::SpotifyWeb, &config),
        Err(Error::SpotifyWebAuth)
    ));
    let mut f = FileValues::empty();
    f.client_id = Some(String::from("id"));
    let half = Config::resolve(&CliValues::empty(), &f).unwrap();
    assert!(matches!(
        init_api(API::SpotifyWeb, &half),
        Err(Error::SpotifyWebAuth)
    ));
}

#[test]
fn backend_dispatch_reads_the_stub() {
    let config = plain_config();
    let b = init_api(API::MacOS, &config).unwrap();
    assert_eq!(b.get_player_name(), "Mac OS");
    assert_eq!(b.get_artist(), None);
    assert!(b.is_playing());
}

#[test]
fn mpris_takes_the_first_album_artist() {
    let config = plain_config();
    let mut b = MPRIS::new(&config).unwrap();
    let meta = MprisMetadata {
        bus_name: String::from("org.mpris.MediaPlayer2.mpv"),
        album_artists: Some(vec![String::from("First"), String::from("Second")]),
        title: Some(String::from("Song")),
        position_ms: Some(1234),
        is_running: true,
    };
    b.connect(Ok(meta)).unwrap();
    assert_eq!(b.get_player_name(), "org.mpris.MediaPlayer2.mpv");
    assert_eq!(b.get_artist(), Some(String::from("First")));
    assert_eq!(b.get_title(), Some(String::from("Song")));
    assert_eq!(b.get_position(), Some(1234));
    assert!(b.is_playing());
}

#[test]
fn mpris_never_reports_an_empty_string() {
    let config = plain_config();
    let mut b = MPRIS::new(&config).unwrap();
    let meta = MprisMetadata {
        bus_name: String::from("bus"),
        album_artists: Some(vec![String::from("")]),
        title: Some(String::from("")),
        position_ms: None,
        is_running: true,
    };
    b.connect(Ok(meta)).unwrap();
    assert_eq!(b.get_artist(), None);
    assert_eq!(b.get_title(), None);
    assert_eq!(b.get_position(), None);
}

#[test]
fn mpris_empty_artist_list_is_unknown() {
    let config = plain_config();
    let mut b = MPRIS::new(&config).unwrap();
    let meta = MprisMetadata {
        bus_name: String::from("bus"),
        album_artists: Some(vec![]),
        title: None,
        position_ms: None,
        is_running: false,
    };
    b.connect(Ok(meta)).unwrap();
    assert_eq!(b.get_artist(), None);
    assert!(!b.is_playing());
}

#[test]
fn mpris_connection_failure_surfaces_as_failed_connection() {
    let config = plain_config();
    let mut b = MPRIS::new(&config).unwrap();
    let e = b.connect(Err(String::from("no player found"))).unwrap_err();
    assert_eq!(e, Error::FailedConnection(String::from("no player found")));
    assert!(!b.is_playing());
}

#[test]
fn stale_backend_reports_not_playing_until_a_refresh_succeeds() {
    let config = plain_config();
    let mut b = MPRIS::new(&config).unwrap();
    let meta = MprisMetadata {
        bus_name: String::from("bus"),
        album_artists: None,
        title: Some(String::from("Song")),
        position_ms: Some(10),
        is_running: true,
    };
    b.connect(Ok(meta)).unwrap();
    assert!(b.is_playing());
    // a failed refresh keeps the old values but playback is presumed
    // stopped
    b.refresh(None);
    assert!(!b.is_playing());
    assert_eq!(b.get_title(), Some(String::from("Song")));
    assert_eq!(b.get_position(), Some(10));
    // a later successful refresh proves otherwise
    let again = MprisMetadata {
        bus_name: String::from("bus"),
        album_artists: None,
        title: Some(String::from("Song")),
        position_ms: Some(20),
        is_running: true,
    };
    b.refresh(Some(again));
    assert!(b.is_playing());
}

#[test]
fn web_backend_caches_the_playing_answer() {
    let config = web_config();
    let mut b = SpotifyWeb::new(&config).unwrap();
    let playing = PlayingData {
        item: Some(PlayingItem {
            name: String::from("Track"),
            artists: vec![String::from("Artist")],
        }),
        progress_ms: Some(5000),
        is_playing: true,
    };
    b.connect(Ok(Some(playing))).unwrap();
    assert_eq!(b.get_player_name(), "Spotify Web Player");
    assert_eq!(b.get_artist(), Some(String::from("Artist")));
    assert_eq!(b.get_title(), Some(String::from("Track")));
    assert_eq!(b.get_position(), Some(5000));
    assert!(b.is_playing());
}

#[test]
fn web_backend_distinguishes_no_track_from_failure() {
    let config = web_config();
    let mut b = SpotifyWeb::new(&config).unwrap();
    assert_eq!(b.connect(Ok(None)).unwrap_err(), Error::NoTrackPlaying);
    assert_eq!(
        b.connect(Err(String::from("timeout"))).unwrap_err(),
        Error::FailedRequest(String::from("timeout"))
    );
    assert!(!b.is_playing());
}

#[test]
fn web_backend_stale_after_failed_refresh() {
    let config = web_config();
    let mut b = SpotifyWeb::new(&config).unwrap();
    let playing = PlayingData {
        item: None,
        progress_ms: None,
        is_playing: true,
    };
    b.connect(Ok(Some(playing))).unwrap();
    assert!(b.is_playing());
    assert_eq!(b.get_artist(), None);
    assert_eq!(b.get_title(), None);
    b.refresh(None);
    assert!(!b.is_playing());
}

#[test]
fn players_are_placeholders_that_do_not_abort() {
    let config = plain_config();
    let mut mpv = Mpv::new(&config).unwrap();
    let mut ext = External::new(&config).unwrap();
    mpv.pause();
    ext.pause();
    assert!(mpv.is_paused());
    assert!(ext.is_paused());
    assert_eq!(mpv.position(), 123);
    assert_eq!(ext.position(), 123);
    mpv.seek();
    ext.seek();
    mpv.start_video();
    ext.start_video();
}

#[test]
fn cards_show_their_description_and_icon() {
    let card = APIData {
        description: String::from("The Spotify Web API"),
        icon: String::from("spotify"),
        connect_msg: String::from("Waiting for the web session"),
        event_loop_interval: String::from("1000"),
    };
    assert_eq!(card.get_description(), "The Spotify Web API");
    assert_eq!(card.get_icon(), "spotify");

    let player = PlayerData {
        description: String::from("The mpv player"),
        icon: String::from("mpv"),
    };
    assert_eq!(player.get_description(), "The mpv player");
    assert_eq!(player.get_icon(), "mpv");

    let msg = Msg::PlayerUpdate(APIEvent::RefreshFailed);
    assert!(matches!(msg, Msg::PlayerUpdate(APIEvent::RefreshFailed)));
    assert!(matches!(Msg::Quit, Msg::Quit));
}
