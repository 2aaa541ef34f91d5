use vidify::api::API;
use vidify::config::{parse_cli, parse_ini, CliValues, Config, FileValues};
use vidify::error::Error;
use vidify::player::Player;
use vidify::text::{format_bool, format_i32, parse_bool, parse_i32};

fn no_cli() -> CliValues {
    CliValues::empty()
}

fn no_file() -> FileValues {
    FileValues::empty()
}

#[test]
fn defaults_apply_when_nothing_is_given() {
    let c = Config::resolve(&no_cli(), &no_file()).unwrap();
    assert!(!c.debug);
    assert!(c.lyrics);
    assert!(!c.fullscreen);
    assert!(!c.dark_mode);
    assert!(!c.stay_on_top);
    assert!(c.api.is_none());
    assert!(c.player.is_none());
    assert!(!c.audiosync);
    assert_eq!(c.audiosync_calibration, 0);
    assert_eq!(c.mpv_flags, "");
    assert!(c.client_id.is_none());
    assert!(c.client_secret.is_none());
    assert_eq!(c.redirect_uri, "http://localhost:8888/callback/");
    assert!(c.refresh_token.is_none());
}

#[test]
fn file_beats_default() {
    let mut f = no_file();
    f.debug = Some(String::from("true"));
    f.audiosync_calibration = Some(String::from("-250"));
    f.api = Some(String::from("MPRIS"));
    f.redirect_uri = Some(String::from("http://localhost:9999/cb/"));
    let c = Config::resolve(&no_cli(), &f).unwrap();
    assert!(c.debug);
    assert_eq!(c.audiosync_calibration, -250);
    assert_eq!(c.api, Some(API::MPRIS));
    assert_eq!(c.redirect_uri, "http://localhost:9999/cb/");
}

#[test]
fn cli_beats_file_and_default() {
    let mut f = no_file();
    f.debug = Some(String::from("false"));
    f.api = Some(String::from("MPRIS"));
    f.audiosync_calibration = Some(String::from("1"));
    let mut cli = no_cli();
    cli.debug = Some(true);
    cli.api = Some(String::from("SpotifyWeb"));
    cli.audiosync_calibration = Some(String::from("42"));
    let c = Config::resolve(&cli, &f).unwrap();
    assert!(c.debug);
    assert_eq!(c.api, Some(API::SpotifyWeb));
    assert_eq!(c.audiosync_calibration, 42);
}

#[test]
fn unparseable_file_value_is_fatal_not_defaulted() {
    let mut f = no_file();
    f.debug = Some(String::from("maybe"));
    let e = Config::resolve(&no_cli(), &f).unwrap_err();
    assert_eq!(
        e,
        Error::ConfigParse(String::from("debug"), String::from("maybe"))
    );
}

#[test]
fn unparseable_cli_value_is_fatal_even_with_good_file_value() {
    let mut f = no_file();
    f.audiosync_calibration = Some(String::from("7"));
    let mut cli = no_cli();
    cli.audiosync_calibration = Some(String::from("seven"));
    let e = Config::resolve(&cli, &f).unwrap_err();
    assert_eq!(
        e,
        Error::ConfigParse(
            String::from("audiosync-calibration-ms"),
            String::from("seven")
        )
    );
}

#[test]
fn unknown_backend_name_is_fatal() {
    let mut f = no_file();
    f.api = Some(String::from("mpris"));
    let e = Config::resolve(&no_cli(), &f).unwrap_err();
    assert_eq!(
        e,
        Error::ConfigParse(String::from("api"), String::from("mpris"))
    );
}

#[test]
fn unknown_player_name_is_fatal() {
    let mut f = no_file();
    f.player = Some(String::from("vlc"));
    let e = Config::resolve(&no_cli(), &f).unwrap_err();
    assert_eq!(
        e,
        Error::ConfigParse(String::from("player"), String::from("vlc"))
    );
}

#[test]
fn bool_round_trip() {
    for b in [true, false] {
        assert_eq!(parse_bool(format_bool(b).as_str()), Some(b));
    }
    assert_eq!(parse_bool("True"), None);
    assert_eq!(parse_bool(""), None);
}

#[test]
fn i32_round_trip() {
    for n in [0, 1, -1, 42, -250, 2147483647, -2147483648] {
        assert_eq!(parse_i32(format_i32(n).as_str()), Some(n));
    }
    assert_eq!(format_i32(-7), "-7");
    assert_eq!(format_i32(2147483647), "2147483647");
}

#[test]
fn i32_rejects_out_of_range_and_junk() {
    assert_eq!(parse_i32("2147483648"), None);
    assert_eq!(parse_i32("-2147483649"), None);
    assert_eq!(parse_i32("99999999999999999999"), None);
    assert_eq!(parse_i32(""), None);
    assert_eq!(parse_i32("-"), None);
    assert_eq!(parse_i32("12a"), None);
    assert_eq!(parse_i32("1 2"), None);
}

#[test]
fn enum_names_round_trip() {
    for a in [API::MPRIS, API::Windows, API::MacOS, API::SpotifyWeb] {
        assert_eq!(API::from_name(a.as_str()), Some(a));
    }
    for p in [Player::Mpv, Player::External] {
        assert_eq!(Player::from_name(p.as_str()), Some(p));
    }
    assert_eq!(API::from_name("spotifyweb"), None);
    assert_eq!(Player::from_name(""), None);
}

#[test]
fn ini_text_is_read_per_section() {
    let text = "junk line\n[Defaults]\ndebug=true\napi=MPRIS\nunknown=ignored\n[SpotifyWeb]\nclient-id=abc\nredirect-uri=http://localhost:1/x=y\n";
    let f = parse_ini(text);
    assert_eq!(f.debug, Some(String::from("true")));
    assert_eq!(f.api, Some(String::from("MPRIS")));
    assert_eq!(f.client_id, Some(String::from("abc")));
    // the value keeps everything after the first `=`
    assert_eq!(f.redirect_uri, Some(String::from("http://localhost:1/x=y")));
    assert_eq!(f.player, None);
    assert_eq!(f.refresh_token, None);
}

#[test]
fn ini_later_occurrence_wins() {
    let text = "[Defaults]\ndebug=false\ndebug=true\n";
    let f = parse_ini(text);
    assert_eq!(f.debug, Some(String::from("true")));
}

#[test]
fn ini_same_key_in_other_section_does_not_leak() {
    let text = "[SpotifyWeb]\ndebug=true\n";
    let f = parse_ini(text);
    assert_eq!(f.debug, None);
}

#[test]
fn empty_file_gives_no_values() {
    let f = parse_ini("");
    assert_eq!(f.debug, None);
    assert_eq!(f.client_secret, None);
}

#[test]
fn written_config_parses_back_identically() {
    let mut f = no_file();
    f.debug = Some(String::from("true"));
    f.api = Some(String::from("SpotifyWeb"));
    f.player = Some(String::from("Mpv"));
    f.audiosync_calibration = Some(String::from("-125"));
    f.mpv_flags = Some(String::from("--no-border --fs"));
    f.client_id = Some(String::from("id123"));
    f.refresh_token = Some(String::from("tok=abc"));
    let c = Config::resolve(&no_cli(), &f).unwrap();
    let text = c.to_ini();
    let c2 = Config::resolve(&no_cli(), &parse_ini(text.as_str())).unwrap();
    assert_eq!(c.debug, c2.debug);
    assert_eq!(c.lyrics, c2.lyrics);
    assert_eq!(c.fullscreen, c2.fullscreen);
    assert_eq!(c.dark_mode, c2.dark_mode);
    assert_eq!(c.stay_on_top, c2.stay_on_top);
    assert_eq!(c.api, c2.api);
    assert_eq!(c.player, c2.player);
    assert_eq!(c.audiosync, c2.audiosync);
    assert_eq!(c.audiosync_calibration, c2.audiosync_calibration);
    assert_eq!(c.mpv_flags, c2.mpv_flags);
    assert_eq!(c.client_id, c2.client_id);
    assert_eq!(c.client_secret, c2.client_secret);
    assert_eq!(c.redirect_uri, c2.redirect_uri);
    assert_eq!(c.refresh_token, c2.refresh_token);
}

#[test]
fn cli_flags_are_recognized() {
    let args: Vec<String> = ["--debug", "-f", "--no-lyrics", "--dark-mode"]
        .iter()
        .map(|s| String::from(*s))
        .collect();
    let cli = parse_cli(&args).unwrap();
    assert_eq!(cli.debug, Some(true));
    assert_eq!(cli.fullscreen, Some(true));
    assert_eq!(cli.lyrics, Some(false));
    assert_eq!(cli.dark_mode, Some(true));
    assert_eq!(cli.stay_on_top, None);
    assert!(cli.leftovers.is_empty());
}

#[test]
fn cli_values_come_in_both_forms() {
    let args: Vec<String> = ["--api", "MPRIS", "--player=Mpv", "--audiosync-calibration-ms=-5"]
        .iter()
        .map(|s| String::from(*s))
        .collect();
    let cli = parse_cli(&args).unwrap();
    assert_eq!(cli.api, Some(String::from("MPRIS")));
    assert_eq!(cli.player, Some(String::from("Mpv")));
    assert_eq!(cli.audiosync_calibration, Some(String::from("-5")));
}

#[test]
fn cli_last_occurrence_wins_and_unknowns_are_kept() {
    let args: Vec<String> = ["--api", "MPRIS", "extra", "--api=SpotifyWeb", "-x"]
        .iter()
        .map(|s| String::from(*s))
        .collect();
    let cli = parse_cli(&args).unwrap();
    assert_eq!(cli.api, Some(String::from("SpotifyWeb")));
    assert_eq!(
        cli.leftovers,
        vec![String::from("extra"), String::from("-x")]
    );
}

#[test]
fn cli_valued_flag_without_value_is_an_error() {
    let args: Vec<String> = vec![String::from("--player")];
    let e = parse_cli(&args).unwrap_err();
    assert_eq!(e, Error::ConfigParse(String::from("player"), String::new()));
}

#[test]
fn error_messages_name_the_field() {
    let e = Error::ConfigParse(String::from("debug"), String::from("maybe"));
    assert_eq!(
        e.message(),
        "Failed parsing the configuration: invalid value 'maybe' for option 'debug'"
    );
    assert_eq!(
        Error::NoTrackPlaying.message(),
        "No track currently playing"
    );
    assert_eq!(
        Error::FailedConnection(String::from("bus down")).message(),
        "Failed to connect: bus down"
    );
}
