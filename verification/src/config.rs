//! Layered configuration resolution.  A `Config` is built from three
//! sources, highest priority first: command-line arguments, the
//! settings file, compiled-in defaults.  Parsing is type-directed and a
//! present-but-unparseable value is a fatal error, never a silent fall
//! through to the next source.
//!
//! The settings file is `key=value` lines under `[Section]` headers.
//! Lines that are neither are ignored, as are unknown keys; when a key
//! appears twice in its section, the later occurrence wins.

use vstd::prelude::*;

use crate::api::{api_of_name, API};
use crate::error::{Error, ErrorV};
use crate::player::{player_of_name, Player};
use crate::text::{
    find_char, find_from, fmt_nat, format_bool, format_bool_spec, format_i32, format_i32_spec,
    has_prefix, lemma_find_from_props, parse_bool, parse_bool_spec, parse_i32, parse_i32_spec,
    split_on, split_str, str_eq,
};

verus! {

// ---------------------------------------------------------------------
// The settings-file grammar
// ---------------------------------------------------------------------

/// Index of the first `=` in a line, or the line's length.
pub open spec fn eq_pos(l: Seq<char>) -> int {
    match find_from(l, 0, '=') {
        Some(i) => i,
        None => l.len() as int,
    }
}

/// A `[Section]` header.
pub open spec fn is_header(l: Seq<char>) -> bool {
    l.len() >= 2 && l[0] == '[' && l.last() == ']'
}

pub open spec fn header_name(l: Seq<char>) -> Seq<char> {
    l.subrange(1, l.len() - 1)
}

/// A `key=value` line: anything with an `=` that is not a header.
pub open spec fn is_kv(l: Seq<char>) -> bool {
    !is_header(l) && eq_pos(l) < l.len()
}

pub open spec fn kv_key(l: Seq<char>) -> Seq<char> {
    l.take(eq_pos(l))
}

pub open spec fn kv_val(l: Seq<char>) -> Seq<char> {
    l.skip(eq_pos(l) + 1)
}

/// The section in force after the given lines, starting from `init`.
pub open spec fn cur_section(ls: Seq<Seq<char>>, init: Seq<char>) -> Seq<char>
    decreases ls.len(),
{
    if ls.len() == 0 {
        init
    } else if is_header(ls.last()) {
        header_name(ls.last())
    } else {
        cur_section(ls.drop_last(), init)
    }
}

/// The value of `key` under `[sec]` in the given lines, later
/// occurrences winning, or `None` where the key is absent.
pub open spec fn ini_get(ls: Seq<Seq<char>>, init: Seq<char>, sec: Seq<char>, key: Seq<char>) -> Option<
    Seq<char>,
>
    decreases ls.len(),
{
    if ls.len() == 0 {
        None
    } else {
        let l = ls.last();
        if is_kv(l) && cur_section(ls.drop_last(), init) == sec && kv_key(l) == key {
            Some(kv_val(l))
        } else {
            ini_get(ls.drop_last(), init, sec, key)
        }
    }
}

/// Look `key` under `[sec]` up in the lines of a settings file.
pub fn ini_lookup(lines: &Vec<String>, sec: &str, key: &str) -> (r: Option<String>)
    ensures
        r.deep_view() == ini_get(lines.deep_view(), Seq::<char>::empty(), sec@, key@),
{
    let mut cursec: String = String::new();
    let mut best: Option<String> = None;
    let mut i: usize = 0;
    while i < lines.len()
        invariant
            0 <= i <= lines.len(),
            cursec@ == cur_section(lines.deep_view().take(i as int), Seq::<char>::empty()),
            best.deep_view() == ini_get(
                lines.deep_view().take(i as int),
                Seq::<char>::empty(),
                sec@,
                key@,
            ),
        decreases lines.len() - i,
    {
        let l: &str = lines[i].as_str();
        let n = l.unicode_len();
        proof {
            let lv = lines.deep_view();
            assert(lv.take(i + 1).drop_last() =~= lv.take(i as int));
            assert(lv[i as int] == lines[i as int]@);
            assert(lv.take(i + 1).last() == l@);
        }
        if n >= 2 && l.get_char(0) == '[' && l.get_char(n - 1) == ']' {
            cursec = l.substring_char(1, n - 1).to_owned();
            proof {
                assert(is_header(l@));
                assert(cursec@ =~= header_name(l@));
            }
        } else {
            proof {
                assert(!is_header(l@));
                lemma_find_from_props(l@, 0, '=');
            }
            match find_char(l, 0, '=') {
                Some(p) => {
                    proof {
                        assert(eq_pos(l@) == p);
                        assert(is_kv(l@));
                    }
                    let k = l.substring_char(0, p);
                    proof {
                        assert(k@ =~= kv_key(l@));
                    }
                    if str_eq(cursec.as_str(), sec) && str_eq(k, key) {
                        let v = l.substring_char(p + 1, n).to_owned();
                        proof {
                            assert(v@ =~= kv_val(l@));
                        }
                        best = Some(v);
                    }
                },
                None => {
                    proof {
                        assert(eq_pos(l@) == l@.len());
                        assert(!is_kv(l@));
                    }
                },
            }
        }
        i = i + 1;
    }
    proof {
        assert(lines.deep_view().take(lines.len() as int) =~= lines.deep_view());
    }
    best
}

// ---------------------------------------------------------------------
// The raw values a settings file supplies
// ---------------------------------------------------------------------

/// Model of [`FileValues`]: one optional raw text per known key.
pub struct FileValuesV {
    pub debug: Option<Seq<char>>,
    pub lyrics: Option<Seq<char>>,
    pub fullscreen: Option<Seq<char>>,
    pub dark_mode: Option<Seq<char>>,
    pub stay_on_top: Option<Seq<char>>,
    pub api: Option<Seq<char>>,
    pub player: Option<Seq<char>>,
    pub audiosync: Option<Seq<char>>,
    pub audiosync_calibration: Option<Seq<char>>,
    pub mpv_flags: Option<Seq<char>>,
    pub client_id: Option<Seq<char>>,
    pub client_secret: Option<Seq<char>>,
    pub redirect_uri: Option<Seq<char>>,
    pub refresh_token: Option<Seq<char>>,
}

/// The raw text found in the settings file for each known key, still
/// unparsed.  Most keys live under `[Defaults]`; the web credentials
/// live under `[SpotifyWeb]`.  An absent key is `None`.
#[derive(Debug)]
pub struct FileValues {
    pub debug: Option<String>,
    pub lyrics: Option<String>,
    pub fullscreen: Option<String>,
    pub dark_mode: Option<String>,
    pub stay_on_top: Option<String>,
    pub api: Option<String>,
    pub player: Option<String>,
    pub audiosync: Option<String>,
    pub audiosync_calibration: Option<String>,
    pub mpv_flags: Option<String>,
    pub client_id: Option<String>,
    pub client_secret: Option<String>,
    pub redirect_uri: Option<String>,
    pub refresh_token: Option<String>,
}

impl View for FileValues {
    type V = FileValuesV;

    open spec fn view(&self) -> FileValuesV {
        FileValuesV {
            debug: self.debug.deep_view(),
            lyrics: self.lyrics.deep_view(),
            fullscreen: self.fullscreen.deep_view(),
            dark_mode: self.dark_mode.deep_view(),
            stay_on_top: self.stay_on_top.deep_view(),
            api: self.api.deep_view(),
            player: self.player.deep_view(),
            audiosync: self.audiosync.deep_view(),
            audiosync_calibration: self.audiosync_calibration.deep_view(),
            mpv_flags: self.mpv_flags.deep_view(),
            client_id: self.client_id.deep_view(),
            client_secret: self.client_secret.deep_view(),
            redirect_uri: self.redirect_uri.deep_view(),
            refresh_token: self.refresh_token.deep_view(),
        }
    }
}

impl FileValues {
    /// No key present at all, as on a first run with an empty file.
    pub fn empty() -> (r: FileValues)
        ensures
            r@ == file_values_of(Seq::<char>::empty()),
    {
        proof {
            let e = Seq::<char>::empty();
            let ls = split_on(e, '\n');
            assert(ls =~~= seq![e]);
            assert forall|sec: Seq<char>, key: Seq<char>|
                #[trigger] ini_get(ls, e, sec, key) is None by {
                assert(ls.drop_last().len() == 0);
                assert(ini_get(ls.drop_last(), e, sec, key) is None);
                assert(!is_kv(ls.last()));
            }
        }
        FileValues {
            debug: None,
            lyrics: None,
            fullscreen: None,
            dark_mode: None,
            stay_on_top: None,
            api: None,
            player: None,
            audiosync: None,
            audiosync_calibration: None,
            mpv_flags: None,
            client_id: None,
            client_secret: None,
            redirect_uri: None,
            refresh_token: None,
        }
    }
}

/// What each known key resolves to in the text of a settings file.
pub open spec fn file_values_of(text: Seq<char>) -> FileValuesV {
    let ls = split_on(text, '\n');
    let e = Seq::<char>::empty();
    FileValuesV {
        debug: ini_get(ls, e, ("Defaults")@, ("debug")@),
        lyrics: ini_get(ls, e, ("Defaults")@, ("lyrics-enabled")@),
        fullscreen: ini_get(ls, e, ("Defaults")@, ("fullscreen")@),
        dark_mode: ini_get(ls, e, ("Defaults")@, ("dark-mode")@),
        stay_on_top: ini_get(ls, e, ("Defaults")@, ("stay-on-top")@),
        api: ini_get(ls, e, ("Defaults")@, ("api")@),
        player: ini_get(ls, e, ("Defaults")@, ("player")@),
        audiosync: ini_get(ls, e, ("Defaults")@, ("audiosync")@),
        audiosync_calibration: ini_get(ls, e, ("Defaults")@, ("audiosync-calibration-ms")@),
        mpv_flags: ini_get(ls, e, ("Defaults")@, ("player-flags")@),
        client_id: ini_get(ls, e, ("SpotifyWeb")@, ("client-id")@),
        client_secret: ini_get(ls, e, ("SpotifyWeb")@, ("client-secret")@),
        redirect_uri: ini_get(ls, e, ("SpotifyWeb")@, ("redirect-uri")@),
        refresh_token: ini_get(ls, e, ("SpotifyWeb")@, ("refresh-token")@),
    }
}

/// Read every known key out of the text of a settings file.
pub fn parse_ini(text: &str) -> (r: FileValues)
    ensures
        r@ == file_values_of(text@),
{
    let lines = split_str(text, '\n');
    FileValues {
        debug: ini_lookup(&lines, "Defaults", "debug"),
        lyrics: ini_lookup(&lines, "Defaults", "lyrics-enabled"),
        fullscreen: ini_lookup(&lines, "Defaults", "fullscreen"),
        dark_mode: ini_lookup(&lines, "Defaults", "dark-mode"),
        stay_on_top: ini_lookup(&lines, "Defaults", "stay-on-top"),
        api: ini_lookup(&lines, "Defaults", "api"),
        player: ini_lookup(&lines, "Defaults", "player"),
        audiosync: ini_lookup(&lines, "Defaults", "audiosync"),
        audiosync_calibration: ini_lookup(&lines, "Defaults", "audiosync-calibration-ms"),
        mpv_flags: ini_lookup(&lines, "Defaults", "player-flags"),
        client_id: ini_lookup(&lines, "SpotifyWeb", "client-id"),
        client_secret: ini_lookup(&lines, "SpotifyWeb", "client-secret"),
        redirect_uri: ini_lookup(&lines, "SpotifyWeb", "redirect-uri"),
        refresh_token: ini_lookup(&lines, "SpotifyWeb", "refresh-token"),
    }
}

// ---------------------------------------------------------------------
// The command-line surface
// ---------------------------------------------------------------------

/// Model of [`CliValues`].
pub struct CliValuesV {
    pub debug: Option<bool>,
    pub lyrics: Option<bool>,
    pub fullscreen: Option<bool>,
    pub dark_mode: Option<bool>,
    pub stay_on_top: Option<bool>,
    pub audiosync: Option<bool>,
    pub audiosync_calibration: Option<Seq<char>>,
    pub mpv_flags: Option<Seq<char>>,
    pub api: Option<Seq<char>>,
    pub player: Option<Seq<char>>,
    pub leftovers: Seq<Seq<char>>,
}

/// What the command line supplied: booleans are set by flags, valued
/// options arrive as raw text and are parsed during resolution.
/// Unrecognized tokens are collected in order for the caller to judge.
#[derive(Debug)]
pub struct CliValues {
    pub debug: Option<bool>,
    pub lyrics: Option<bool>,
    pub fullscreen: Option<bool>,
    pub dark_mode: Option<bool>,
    pub stay_on_top: Option<bool>,
    pub audiosync: Option<bool>,
    pub audiosync_calibration: Option<String>,
    pub mpv_flags: Option<String>,
    pub api: Option<String>,
    pub player: Option<String>,
    pub leftovers: Vec<String>,
}

impl View for CliValues {
    type V = CliValuesV;

    open spec fn view(&self) -> CliValuesV {
        CliValuesV {
            debug: self.debug,
            lyrics: self.lyrics,
            fullscreen: self.fullscreen,
            dark_mode: self.dark_mode,
            stay_on_top: self.stay_on_top,
            audiosync: self.audiosync,
            audiosync_calibration: self.audiosync_calibration.deep_view(),
            mpv_flags: self.mpv_flags.deep_view(),
            api: self.api.deep_view(),
            player: self.player.deep_view(),
            leftovers: self.leftovers.deep_view(),
        }
    }
}

/// No flag given.
pub open spec fn empty_cli() -> CliValuesV {
    CliValuesV {
        debug: None,
        lyrics: None,
        fullscreen: None,
        dark_mode: None,
        stay_on_top: None,
        audiosync: None,
        audiosync_calibration: None,
        mpv_flags: None,
        api: None,
        player: None,
        leftovers: Seq::empty(),
    }
}

impl CliValues {
    /// No flag given.
    pub fn empty() -> (r: CliValues)
        ensures
            r@ == empty_cli(),
    {
        let r = CliValues {
            debug: None,
            lyrics: None,
            fullscreen: None,
            dark_mode: None,
            stay_on_top: None,
            audiosync: None,
            audiosync_calibration: None,
            mpv_flags: None,
            api: None,
            player: None,
            leftovers: Vec::new(),
        };
        proof {
            assert(r@.leftovers =~= empty_cli().leftovers);
        }
        r
    }
}

/// One pass over the arguments, left to right, starting from what is
/// already set in `acc`; a later occurrence of a flag overwrites an
/// earlier one.  A valued flag at the very end, with nothing to take
/// its value from, is an invalid-value error for that field.
pub open spec fn cli_scan_from(args: Seq<Seq<char>>, acc: CliValuesV) -> Result<
    CliValuesV,
    ErrorV,
>
    decreases args.len(),
{
    if args.len() == 0 {
        Ok(acc)
    } else {
        let a = args[0];
        let rest = args.skip(1);
        if a == ("--debug")@ || a == ("-d")@ {
            cli_scan_from(rest, CliValuesV { debug: Some(true), ..acc })
        } else if a == ("--lyrics-enabled")@ {
            cli_scan_from(rest, CliValuesV { lyrics: Some(true), ..acc })
        } else if a == ("--no-lyrics")@ || a == ("-n")@ {
            cli_scan_from(rest, CliValuesV { lyrics: Some(false), ..acc })
        } else if a == ("--fullscreen")@ || a == ("-f")@ {
            cli_scan_from(rest, CliValuesV { fullscreen: Some(true), ..acc })
        } else if a == ("--dark-mode")@ {
            cli_scan_from(rest, CliValuesV { dark_mode: Some(true), ..acc })
        } else if a == ("--stay-on-top")@ {
            cli_scan_from(rest, CliValuesV { stay_on_top: Some(true), ..acc })
        } else if a == ("--audiosync")@ {
            cli_scan_from(rest, CliValuesV { audiosync: Some(true), ..acc })
        } else if a == ("--api")@ {
            if args.len() < 2 {
                Err(ErrorV::ConfigParse(("api")@, Seq::empty()))
            } else {
                cli_scan_from(args.skip(2), CliValuesV { api: Some(args[1]), ..acc })
            }
        } else if has_prefix(a, ("--api=")@) {
            cli_scan_from(rest, CliValuesV { api: Some(a.skip(("--api=")@.len() as int)), ..acc })
        } else if a == ("--player")@ {
            if args.len() < 2 {
                Err(ErrorV::ConfigParse(("player")@, Seq::empty()))
            } else {
                cli_scan_from(args.skip(2), CliValuesV { player: Some(args[1]), ..acc })
            }
        } else if has_prefix(a, ("--player=")@) {
            cli_scan_from(
                rest,
                CliValuesV { player: Some(a.skip(("--player=")@.len() as int)), ..acc },
            )
        } else if a == ("--audiosync-calibration-ms")@ {
            if args.len() < 2 {
                Err(ErrorV::ConfigParse(("audiosync-calibration-ms")@, Seq::empty()))
            } else {
                cli_scan_from(
                    args.skip(2),
                    CliValuesV { audiosync_calibration: Some(args[1]), ..acc },
                )
            }
        } else if has_prefix(a, ("--audiosync-calibration-ms=")@) {
            cli_scan_from(
                rest,
                CliValuesV {
                    audiosync_calibration: Some(
                        a.skip(("--audiosync-calibration-ms=")@.len() as int),
                    ),
                    ..acc
                },
            )
        } else if a == ("--player-flags")@ {
            if args.len() < 2 {
                Err(ErrorV::ConfigParse(("player-flags")@, Seq::empty()))
            } else {
                cli_scan_from(args.skip(2), CliValuesV { mpv_flags: Some(args[1]), ..acc })
            }
        } else if has_prefix(a, ("--player-flags=")@) {
            cli_scan_from(
                rest,
                CliValuesV { mpv_flags: Some(a.skip(("--player-flags=")@.len() as int)), ..acc },
            )
        } else {
            cli_scan_from(rest, CliValuesV { leftovers: acc.leftovers.push(a), ..acc })
        }
    }
}

/// Scan the command line.  Flags may come as `--flag value` or
/// `--flag=value`; the last occurrence of a flag wins; anything not
/// recognized is handed back in `leftovers`.
pub fn parse_cli(args: &Vec<String>) -> (r: Result<CliValues, Error>)
    ensures
        match r {
            Ok(c) => cli_scan_from(args.deep_view(), empty_cli()) == Ok::<CliValuesV, ErrorV>(c@),
            Err(e) => cli_scan_from(args.deep_view(), empty_cli()) == Err::<CliValuesV, ErrorV>(
                e@,
            ),
        },
{
    let ghost av = args.deep_view();
    let mut acc = CliValues::empty();
    let mut i: usize = 0;
    proof {
        assert(av.skip(0) =~= av);
    }
    while i < args.len()
        invariant
            0 <= i <= args.len(),
            av == args.deep_view(),
            av.len() == args.len(),
            cli_scan_from(av, empty_cli()) == cli_scan_from(av.skip(i as int), acc@),
        decreases args.len() - i,
    {
        let ghost rem = av.skip(i as int);
        let ghost accv = acc@;
        let a: &str = args[i].as_str();
        proof {
            assert(rem[0] == av[i as int]);
            assert(av[i as int] == a@);
            assert(rem.skip(1) =~= av.skip(i + 1));
        }
        if str_eq(a, "--debug") || str_eq(a, "-d") {
            acc.debug = Some(true);
            proof {
                assert(cli_scan_from(rem, accv) == cli_scan_from(rem.skip(1), acc@));
            }
            i = i + 1;
        } else if str_eq(a, "--lyrics-enabled") {
            acc.lyrics = Some(true);
            proof {
                assert(cli_scan_from(rem, accv) == cli_scan_from(rem.skip(1), acc@));
            }
            i = i + 1;
        } else if str_eq(a, "--no-lyrics") || str_eq(a, "-n") {
            acc.lyrics = Some(false);
            proof {
                assert(cli_scan_from(rem, accv) == cli_scan_from(rem.skip(1), acc@));
            }
            i = i + 1;
        } else if str_eq(a, "--fullscreen") || str_eq(a, "-f") {
            acc.fullscreen = Some(true);
            proof {
                assert(cli_scan_from(rem, accv) == cli_scan_from(rem.skip(1), acc@));
            }
            i = i + 1;
        } else if str_eq(a, "--dark-mode") {
            acc.dark_mode = Some(true);
            proof {
                assert(cli_scan_from(rem, accv) == cli_scan_from(rem.skip(1), acc@));
            }
            i = i + 1;
        } else if str_eq(a, "--stay-on-top") {
            acc.stay_on_top = Some(true);
            proof {
                assert(cli_scan_from(rem, accv) == cli_scan_from(rem.skip(1), acc@));
            }
            i = i + 1;
        } else if str_eq(a, "--audiosync") {
            acc.audiosync = Some(true);
            proof {
                assert(cli_scan_from(rem, accv) == cli_scan_from(rem.skip(1), acc@));
            }
            i = i + 1;
        } else if str_eq(a, "--api") {
            if i + 1 >= args.len() {
                proof {
                    assert(rem.len() < 2);
                }
                return Err(Error::ConfigParse(String::from_str("api"), String::new()));
            }
            acc.api = Some(args[i + 1].clone());
            proof {
                assert(rem[1] == av[i + 1]);
                assert(rem.skip(2) =~= av.skip(i + 2));
                assert(cli_scan_from(rem, accv) == cli_scan_from(rem.skip(2), acc@));
            }
            i = i + 2;
        } else if crate::text::starts_with(a, "--api=") {
            acc.api = Some(crate::text::suffix_after(a, "--api="));
            proof {
                assert(cli_scan_from(rem, accv) == cli_scan_from(rem.skip(1), acc@));
            }
            i = i + 1;
        } else if str_eq(a, "--player") {
            if i + 1 >= args.len() {
                proof {
                    assert(rem.len() < 2);
                }
                return Err(Error::ConfigParse(String::from_str("player"), String::new()));
            }
            acc.player = Some(args[i + 1].clone());
            proof {
                assert(rem[1] == av[i + 1]);
                assert(rem.skip(2) =~= av.skip(i + 2));
                assert(cli_scan_from(rem, accv) == cli_scan_from(rem.skip(2), acc@));
            }
            i = i + 2;
        } else if crate::text::starts_with(a, "--player=") {
            acc.player = Some(crate::text::suffix_after(a, "--player="));
            proof {
                assert(cli_scan_from(rem, accv) == cli_scan_from(rem.skip(1), acc@));
            }
            i = i + 1;
        } else if str_eq(a, "--audiosync-calibration-ms") {
            if i + 1 >= args.len() {
                proof {
                    assert(rem.len() < 2);
                }
                return Err(
                    Error::ConfigParse(
                        String::from_str("audiosync-calibration-ms"),
                        String::new(),
                    ),
                );
            }
            acc.audiosync_calibration = Some(args[i + 1].clone());
            proof {
                assert(rem[1] == av[i + 1]);
                assert(rem.skip(2) =~= av.skip(i + 2));
                assert(cli_scan_from(rem, accv) == cli_scan_from(rem.skip(2), acc@));
            }
            i = i + 2;
        } else if crate::text::starts_with(a, "--audiosync-calibration-ms=") {
            acc.audiosync_calibration = Some(
                crate::text::suffix_after(a, "--audiosync-calibration-ms="),
            );
            proof {
                assert(cli_scan_from(rem, accv) == cli_scan_from(rem.skip(1), acc@));
            }
            i = i + 1;
        } else if str_eq(a, "--player-flags") {
            if i + 1 >= args.len() {
                proof {
                    assert(rem.len() < 2);
                }
                return Err(
                    Error::ConfigParse(String::from_str("player-flags"), String::new()),
                );
            }
            acc.mpv_flags = Some(args[i + 1].clone());
            proof {
                assert(rem[1] == av[i + 1]);
                assert(rem.skip(2) =~= av.skip(i + 2));
                assert(cli_scan_from(rem, accv) == cli_scan_from(rem.skip(2), acc@));
            }
            i = i + 2;
        } else if crate::text::starts_with(a, "--player-flags=") {
            acc.mpv_flags = Some(crate::text::suffix_after(a, "--player-flags="));
            proof {
                assert(cli_scan_from(rem, accv) == cli_scan_from(rem.skip(1), acc@));
            }
            i = i + 1;
        } else {
            acc.leftovers.push(args[i].clone());
            proof {
                assert(acc@.leftovers =~= accv.leftovers.push(a@));
                assert(acc@ == (CliValuesV { leftovers: accv.leftovers.push(a@), ..accv }));
                assert(cli_scan_from(rem, accv) == cli_scan_from(rem.skip(1), acc@));
            }
            i = i + 1;
        }
        proof {
            assert(cli_scan_from(av, empty_cli()) == cli_scan_from(av.skip(i as int), acc@));
        }
    }
    proof {
        assert(av.skip(args.len() as int) =~= Seq::<Seq<char>>::empty());
    }
    Ok(acc)
}

// ---------------------------------------------------------------------
// The resolved configuration
// ---------------------------------------------------------------------

/// Model of a [`Config`].
pub struct ConfigV {
    pub debug: bool,
    pub lyrics: bool,
    pub fullscreen: bool,
    pub dark_mode: bool,
    pub stay_on_top: bool,
    pub api: Option<API>,
    pub player: Option<Player>,
    pub audiosync: bool,
    pub audiosync_calibration: i32,
    pub mpv_flags: Seq<char>,
    pub client_id: Option<Seq<char>>,
    pub client_secret: Option<Seq<char>>,
    pub redirect_uri: Seq<char>,
    pub refresh_token: Option<Seq<char>>,
}

/// The application's configuration after resolution: every field holds
/// exactly one value, or `None` for an absent optional.  Built once at
/// startup and read-only afterwards.
#[derive(Debug)]
pub struct Config {
    /// Display debug messages.
    pub debug: bool,
    /// Show the lyrics.
    pub lyrics: bool,
    /// Open the app in fullscreen mode.
    pub fullscreen: bool,
    /// Activate the dark mode.
    pub dark_mode: bool,
    /// The window will stay on top of all apps.
    pub stay_on_top: bool,
    /// The source music player; `None` leaves the choice to the caller.
    pub api: Option<API>,
    /// The output video player.
    pub player: Option<Player>,
    /// Enable automatic audio synchronization.
    pub audiosync: bool,
    /// Manual tweaking value for audiosync in milliseconds.
    pub audiosync_calibration: i32,
    /// Custom flags used when opening the player, separated by spaces.
    pub mpv_flags: String,
    /// The client ID for the web API.
    pub client_id: Option<String>,
    /// The client secret for the web API.
    pub client_secret: Option<String>,
    /// The redirect URI used for the web API's auth flow.
    pub redirect_uri: String,
    /// A cached refresh token from an earlier session.
    pub refresh_token: Option<String>,
}

// ---------------------------------------------------------------------
// Per-field resolution: CLI beats file beats default, and a present
// value that does not parse is fatal.
// ---------------------------------------------------------------------

pub open spec fn resolve_bool_spec(
    cli: Option<bool>,
    file: Option<Seq<char>>,
    dflt: bool,
    field: Seq<char>,
) -> Result<bool, ErrorV> {
    match cli {
        Some(b) => Ok(b),
        None => match file {
            Some(s) => match parse_bool_spec(s) {
                Some(b) => Ok(b),
                None => Err(ErrorV::ConfigParse(field, s)),
            },
            None => Ok(dflt),
        },
    }
}

pub open spec fn resolve_i32_spec(
    cli: Option<Seq<char>>,
    file: Option<Seq<char>>,
    dflt: i32,
    field: Seq<char>,
) -> Result<i32, ErrorV> {
    match cli {
        Some(s) => match parse_i32_spec(s) {
            Some(v) => Ok(v),
            None => Err(ErrorV::ConfigParse(field, s)),
        },
        None => match file {
            Some(s) => match parse_i32_spec(s) {
                Some(v) => Ok(v),
                None => Err(ErrorV::ConfigParse(field, s)),
            },
            None => Ok(dflt),
        },
    }
}

pub open spec fn resolve_string_spec(
    cli: Option<Seq<char>>,
    file: Option<Seq<char>>,
    dflt: Seq<char>,
) -> Seq<char> {
    match cli {
        Some(s) => s,
        None => match file {
            Some(s) => s,
            None => dflt,
        },
    }
}

pub open spec fn resolve_api_spec(
    cli: Option<Seq<char>>,
    file: Option<Seq<char>>,
    field: Seq<char>,
) -> Result<Option<API>, ErrorV> {
    match cli {
        Some(s) => match api_of_name(s) {
            Some(a) => Ok(Some(a)),
            None => Err(ErrorV::ConfigParse(field, s)),
        },
        None => match file {
            Some(s) => match api_of_name(s) {
                Some(a) => Ok(Some(a)),
                None => Err(ErrorV::ConfigParse(field, s)),
            },
            None => Ok(None),
        },
    }
}

pub open spec fn resolve_player_spec(
    cli: Option<Seq<char>>,
    file: Option<Seq<char>>,
    field: Seq<char>,
) -> Result<Option<Player>, ErrorV> {
    match cli {
        Some(s) => match player_of_name(s) {
            Some(p) => Ok(Some(p)),
            None => Err(ErrorV::ConfigParse(field, s)),
        },
        None => match file {
            Some(s) => match player_of_name(s) {
                Some(p) => Ok(Some(p)),
                None => Err(ErrorV::ConfigParse(field, s)),
            },
            None => Ok(None),
        },
    }
}

/// Full resolution, field by field in declaration order; the first
/// field whose present value fails its parse decides the error.
pub open spec fn resolve_spec(c: CliValuesV, f: FileValuesV) -> Result<ConfigV, ErrorV> {
    match resolve_bool_spec(c.debug, f.debug, false, ("debug")@) {
        Err(e) => Err(e),
        Ok(debug) => match resolve_bool_spec(c.lyrics, f.lyrics, true, ("lyrics-enabled")@) {
            Err(e) => Err(e),
            Ok(lyrics) => match resolve_bool_spec(
                c.fullscreen,
                f.fullscreen,
                false,
                ("fullscreen")@,
            ) {
                Err(e) => Err(e),
                Ok(fullscreen) => match resolve_bool_spec(
                    c.dark_mode,
                    f.dark_mode,
                    false,
                    ("dark-mode")@,
                ) {
                    Err(e) => Err(e),
                    Ok(dark_mode) => match resolve_bool_spec(
                        c.stay_on_top,
                        f.stay_on_top,
                        false,
                        ("stay-on-top")@,
                    ) {
                        Err(e) => Err(e),
                        Ok(stay_on_top) => match resolve_api_spec(c.api, f.api, ("api")@) {
                            Err(e) => Err(e),
                            Ok(api) => match resolve_player_spec(
                                c.player,
                                f.player,
                                ("player")@,
                            ) {
                                Err(e) => Err(e),
                                Ok(player) => match resolve_bool_spec(
                                    c.audiosync,
                                    f.audiosync,
                                    false,
                                    ("audiosync")@,
                                ) {
                                    Err(e) => Err(e),
                                    Ok(audiosync) => match resolve_i32_spec(
                                        c.audiosync_calibration,
                                        f.audiosync_calibration,
                                        0,
                                        ("audiosync-calibration-ms")@,
                                    ) {
                                        Err(e) => Err(e),
                                        Ok(audiosync_calibration) => Ok(
                                            ConfigV {
                                                debug,
                                                lyrics,
                                                fullscreen,
                                                dark_mode,
                                                stay_on_top,
                                                api,
                                                player,
                                                audiosync,
                                                audiosync_calibration,
                                                mpv_flags: resolve_string_spec(
                                                    c.mpv_flags,
                                                    f.mpv_flags,
                                                    Seq::empty(),
                                                ),
                                                client_id: f.client_id,
                                                client_secret: f.client_secret,
                                                redirect_uri: resolve_string_spec(
                                                    None,
                                                    f.redirect_uri,
                                                    ("http://localhost:8888/callback/")@,
                                                ),
                                                refresh_token: f.refresh_token,
                                            },
                                        ),
                                    },
                                },
                            },
                        },
                    },
                },
            },
        },
    }
}

fn resolve_bool_field(cli: Option<bool>, file: &Option<String>, dflt: bool, field: &str) -> (r:
    Result<bool, Error>)
    ensures
        match r {
            Ok(v) => resolve_bool_spec(cli, file.deep_view(), dflt, field@) == Ok::<
                bool,
                ErrorV,
            >(v),
            Err(e) => resolve_bool_spec(cli, file.deep_view(), dflt, field@) == Err::<
                bool,
                ErrorV,
            >(e@),
        },
{
    match cli {
        Some(b) => Ok(b),
        None => match file {
            Some(s) => match parse_bool(s.as_str()) {
                Some(b) => Ok(b),
                None => Err(Error::ConfigParse(field.to_owned(), s.clone())),
            },
            None => Ok(dflt),
        },
    }
}

fn resolve_i32_field(
    cli: &Option<String>,
    file: &Option<String>,
    dflt: i32,
    field: &str,
) -> (r: Result<i32, Error>)
    ensures
        match r {
            Ok(v) => resolve_i32_spec(cli.deep_view(), file.deep_view(), dflt, field@) == Ok::<
                i32,
                ErrorV,
            >(v),
            Err(e) => resolve_i32_spec(cli.deep_view(), file.deep_view(), dflt, field@) == Err::<
                i32,
                ErrorV,
            >(e@),
        },
{
    match cli {
        Some(s) => match parse_i32(s.as_str()) {
            Some(v) => Ok(v),
            None => Err(Error::ConfigParse(field.to_owned(), s.clone())),
        },
        None => match file {
            Some(s) => match parse_i32(s.as_str()) {
                Some(v) => Ok(v),
                None => Err(Error::ConfigParse(field.to_owned(), s.clone())),
            },
            None => Ok(dflt),
        },
    }
}

fn resolve_api_field(cli: &Option<String>, file: &Option<String>, field: &str) -> (r: Result<
    Option<API>,
    Error,
>)
    ensures
        match r {
            Ok(v) => resolve_api_spec(cli.deep_view(), file.deep_view(), field@) == Ok::<
                Option<API>,
                ErrorV,
            >(v),
            Err(e) => resolve_api_spec(cli.deep_view(), file.deep_view(), field@) == Err::<
                Option<API>,
                ErrorV,
            >(e@),
        },
{
    match cli {
        Some(s) => match API::from_name(s.as_str()) {
            Some(a) => Ok(Some(a)),
            None => Err(Error::ConfigParse(field.to_owned(), s.clone())),
        },
        None => match file {
            Some(s) => match API::from_name(s.as_str()) {
                Some(a) => Ok(Some(a)),
                None => Err(Error::ConfigParse(field.to_owned(), s.clone())),
            },
            None => Ok(None),
        },
    }
}

fn resolve_player_field(cli: &Option<String>, file: &Option<String>, field: &str) -> (r: Result<
    Option<Player>,
    Error,
>)
    ensures
        match r {
            Ok(v) => resolve_player_spec(cli.deep_view(), file.deep_view(), field@) == Ok::<
                Option<Player>,
                ErrorV,
            >(v),
            Err(e) => resolve_player_spec(cli.deep_view(), file.deep_view(), field@) == Err::<
                Option<Player>,
                ErrorV,
            >(e@),
        },
{
    match cli {
        Some(s) => match Player::from_name(s.as_str()) {
            Some(p) => Ok(Some(p)),
            None => Err(Error::ConfigParse(field.to_owned(), s.clone())),
        },
        None => match file {
            Some(s) => match Player::from_name(s.as_str()) {
                Some(p) => Ok(Some(p)),
                None => Err(Error::ConfigParse(field.to_owned(), s.clone())),
            },
            None => Ok(None),
        },
    }
}

fn resolve_string_field(cli: &Option<String>, file: &Option<String>, dflt: &str) -> (r: String)
    ensures
        r@ == resolve_string_spec(cli.deep_view(), file.deep_view(), dflt@),
{
    match cli {
        Some(s) => s.clone(),
        None => match file {
            Some(s) => s.clone(),
            None => dflt.to_owned(),
        },
    }
}

fn clone_opt_string(o: &Option<String>) -> (r: Option<String>)
    ensures
        r.deep_view() == o.deep_view(),
{
    match o {
        Some(s) => Some(s.clone()),
        None => None,
    }
}

impl View for Config {
    type V = ConfigV;

    open spec fn view(&self) -> ConfigV {
        ConfigV {
            debug: self.debug,
            lyrics: self.lyrics,
            fullscreen: self.fullscreen,
            dark_mode: self.dark_mode,
            stay_on_top: self.stay_on_top,
            api: self.api,
            player: self.player,
            audiosync: self.audiosync,
            audiosync_calibration: self.audiosync_calibration,
            mpv_flags: self.mpv_flags@,
            client_id: self.client_id.deep_view(),
            client_secret: self.client_secret.deep_view(),
            redirect_uri: self.redirect_uri@,
            refresh_token: self.refresh_token.deep_view(),
        }
    }
}

impl Config {
    /// Merge the command line, the settings file and the compiled-in
    /// defaults into one configuration.  Per field, highest priority
    /// first: CLI if present, else file, else default (`None` for the
    /// optionals without one).  A present value that fails its
    /// type-directed parse is fatal and never falls through.
    #[verifier::rlimit(100)]
    pub fn resolve(cli: &CliValues, file: &FileValues) -> (r: Result<Config, Error>)
        ensures
            match r {
                Ok(c) => resolve_spec(cli@, file@) == Ok::<ConfigV, ErrorV>(c@),
                Err(e) => resolve_spec(cli@, file@) == Err::<ConfigV, ErrorV>(e@),
            },
    {
        let debug = match resolve_bool_field(cli.debug, &file.debug, false, "debug") {
            Ok(v) => v,
            Err(e) => {
                return Err(e);
            },
        };
        let lyrics = match resolve_bool_field(cli.lyrics, &file.lyrics, true, "lyrics-enabled") {
            Ok(v) => v,
            Err(e) => {
                return Err(e);
            },
        };
        let fullscreen = match resolve_bool_field(
            cli.fullscreen,
            &file.fullscreen,
            false,
            "fullscreen",
        ) {
            Ok(v) => v,
            Err(e) => {
                return Err(e);
            },
        };
        let dark_mode = match resolve_bool_field(
            cli.dark_mode,
            &file.dark_mode,
            false,
            "dark-mode",
        ) {
            Ok(v) => v,
            Err(e) => {
                return Err(e);
            },
        };
        let stay_on_top = match resolve_bool_field(
            cli.stay_on_top,
            &file.stay_on_top,
            false,
            "stay-on-top",
        ) {
            Ok(v) => v,
            Err(e) => {
                return Err(e);
            },
        };
        let api = match resolve_api_field(&cli.api, &file.api, "api") {
            Ok(v) => v,
            Err(e) => {
                return Err(e);
            },
        };
        let player = match resolve_player_field(&cli.player, &file.player, "player") {
            Ok(v) => v,
            Err(e) => {
                return Err(e);
            },
        };
        let audiosync = match resolve_bool_field(
            cli.audiosync,
            &file.audiosync,
            false,
            "audiosync",
        ) {
            Ok(v) => v,
            Err(e) => {
                return Err(e);
            },
        };
        let audiosync_calibration = match resolve_i32_field(
            &cli.audiosync_calibration,
            &file.audiosync_calibration,
            0,
            "audiosync-calibration-ms",
        ) {
            Ok(v) => v,
            Err(e) => {
                return Err(e);
            },
        };
        let out = Config {
            debug,
            lyrics,
            fullscreen,
            dark_mode,
            stay_on_top,
            api,
            player,
            audiosync,
            audiosync_calibration,
            mpv_flags: resolve_string_field(&cli.mpv_flags, &file.mpv_flags, ""),
            client_id: clone_opt_string(&file.client_id),
            client_secret: clone_opt_string(&file.client_secret),
            redirect_uri: resolve_string_field(
                &None,
                &file.redirect_uri,
                "http://localhost:8888/callback/",
            ),
            refresh_token: clone_opt_string(&file.refresh_token),
        };
        proof {
            assert(resolve_bool_spec(cli@.debug, file@.debug, false, ("debug")@) == Ok::<
                bool,
                ErrorV,
            >(debug));
            assert(resolve_bool_spec(cli@.lyrics, file@.lyrics, true, ("lyrics-enabled")@)
                == Ok::<bool, ErrorV>(lyrics));
            assert(resolve_bool_spec(cli@.fullscreen, file@.fullscreen, false, ("fullscreen")@)
                == Ok::<bool, ErrorV>(fullscreen));
            assert(resolve_bool_spec(cli@.dark_mode, file@.dark_mode, false, ("dark-mode")@)
                == Ok::<bool, ErrorV>(dark_mode));
            assert(resolve_bool_spec(
                cli@.stay_on_top,
                file@.stay_on_top,
                false,
                ("stay-on-top")@,
            ) == Ok::<bool, ErrorV>(stay_on_top));
            assert(resolve_api_spec(cli@.api, file@.api, ("api")@) == Ok::<
                Option<API>,
                ErrorV,
            >(api));
            assert(resolve_player_spec(cli@.player, file@.player, ("player")@) == Ok::<
                Option<Player>,
                ErrorV,
            >(player));
            assert(resolve_bool_spec(cli@.audiosync, file@.audiosync, false, ("audiosync")@)
                == Ok::<bool, ErrorV>(audiosync));
            assert(resolve_i32_spec(
                cli@.audiosync_calibration,
                file@.audiosync_calibration,
                0,
                ("audiosync-calibration-ms")@,
            ) == Ok::<i32, ErrorV>(audiosync_calibration));
            reveal_strlit("");
            assert(("")@ =~= Seq::<char>::empty());
            assert(out@.mpv_flags == resolve_string_spec(
                cli@.mpv_flags,
                file@.mpv_flags,
                Seq::empty(),
            ));
            assert(out@.redirect_uri == resolve_string_spec(
                None,
                file@.redirect_uri,
                ("http://localhost:8888/callback/")@,
            ));
            assert(out@.client_id == file@.client_id);
            assert(out@.client_secret == file@.client_secret);
            assert(out@.refresh_token == file@.refresh_token);
            assert(resolve_spec(cli@, file@) == Ok::<ConfigV, ErrorV>(out@));
        }
        Ok(out)
    }
}

// ---------------------------------------------------------------------
// Writing the settings file
// ---------------------------------------------------------------------

/// One `key=value` line.
pub open spec fn kv_line(key: Seq<char>, val: Seq<char>) -> Seq<char> {
    key + seq!['='] + val
}

/// The line for an optional key: none when the value is absent.
pub open spec fn opt_kv_lines(key: Seq<char>, val: Option<Seq<char>>) -> Seq<Seq<char>> {
    match val {
        Some(v) => seq![kv_line(key, v)],
        None => Seq::empty(),
    }
}

pub open spec fn api_lines(a: Option<API>) -> Seq<Seq<char>> {
    match a {
        Some(x) => seq![kv_line(("api")@, crate::api::api_name(x))],
        None => Seq::empty(),
    }
}

pub open spec fn player_lines(p: Option<Player>) -> Seq<Seq<char>> {
    match p {
        Some(x) => seq![kv_line(("player")@, crate::player::player_name(x))],
        None => Seq::empty(),
    }
}

/// The entries of the `[Defaults]` section, absent optionals
/// omitted.
pub open spec fn defaults_body(c: ConfigV) -> Seq<Seq<char>> {
    seq![
        kv_line(("debug")@, format_bool_spec(c.debug)),
        kv_line(("lyrics-enabled")@, format_bool_spec(c.lyrics)),
        kv_line(("fullscreen")@, format_bool_spec(c.fullscreen)),
        kv_line(("dark-mode")@, format_bool_spec(c.dark_mode)),
        kv_line(("stay-on-top")@, format_bool_spec(c.stay_on_top)),
    ] + api_lines(c.api) + player_lines(c.player) + seq![
        kv_line(("audiosync")@, format_bool_spec(c.audiosync)),
        kv_line(("audiosync-calibration-ms")@, format_i32_spec(c.audiosync_calibration as int)),
        kv_line(("player-flags")@, c.mpv_flags),
    ]
}

/// The entries of the `[SpotifyWeb]` section.
pub open spec fn web_body(c: ConfigV) -> Seq<Seq<char>> {
    opt_kv_lines(("client-id")@, c.client_id) + opt_kv_lines(("client-secret")@, c.client_secret)
        + seq![kv_line(("redirect-uri")@, c.redirect_uri)] + opt_kv_lines(
        ("refresh-token")@,
        c.refresh_token,
    )
}

/// The `[Defaults]` section a configuration writes, line by line.
pub open spec fn defaults_lines_of(c: ConfigV) -> Seq<Seq<char>> {
    seq![("[Defaults]")@] + defaults_body(c)
}

/// The `[SpotifyWeb]` section a configuration writes.
pub open spec fn web_lines_of(c: ConfigV) -> Seq<Seq<char>> {
    seq![("[SpotifyWeb]")@] + web_body(c)
}

/// The settings file a configuration writes, line by line: the
/// `[Defaults]` section, then `[SpotifyWeb]`.
pub open spec fn config_lines(c: ConfigV) -> Seq<Seq<char>> {
    defaults_lines_of(c) + web_lines_of(c)
}

fn push_kv(out: &mut Vec<String>, key: &str, val: &str)
    ensures
        final(out).deep_view() == old(out).deep_view().push(kv_line(key@, val@)),
{
    let mut line = String::from_str(key);
    line.append("=");
    line.append(val);
    proof {
        reveal_strlit("=");
        assert(line@ =~= kv_line(key@, val@));
    }
    out.push(line);
    proof {
        assert(out.deep_view() =~= old(out).deep_view().push(kv_line(key@, val@)));
    }
}

impl Config {
    /// Write the `[Defaults]` section onto the end of `out`.
    #[verifier::rlimit(60)]
    fn push_defaults(&self, out: &mut Vec<String>)
        ensures
            final(out).deep_view() == old(out).deep_view() + defaults_lines_of(self@),
    {
        let ghost b0 = out.deep_view();
        let ghost p1 = b0 + seq![
            ("[Defaults]")@,
            kv_line(("debug")@, format_bool_spec(self@.debug)),
            kv_line(("lyrics-enabled")@, format_bool_spec(self@.lyrics)),
            kv_line(("fullscreen")@, format_bool_spec(self@.fullscreen)),
            kv_line(("dark-mode")@, format_bool_spec(self@.dark_mode)),
            kv_line(("stay-on-top")@, format_bool_spec(self@.stay_on_top)),
        ];
        let ghost p2 = p1 + api_lines(self@.api);
        let ghost p3 = p2 + player_lines(self@.player);
        out.push(String::from_str("[Defaults]"));
        proof {
            assert(out.deep_view() =~= b0.push(("[Defaults]")@));
        }
        push_kv(out, "debug", format_bool(self.debug).as_str());
        push_kv(out, "lyrics-enabled", format_bool(self.lyrics).as_str());
        push_kv(out, "fullscreen", format_bool(self.fullscreen).as_str());
        push_kv(out, "dark-mode", format_bool(self.dark_mode).as_str());
        push_kv(out, "stay-on-top", format_bool(self.stay_on_top).as_str());
        proof {
            assert(out.deep_view() =~= p1);
        }
        match &self.api {
            Some(a) => {
                push_kv(out, "api", a.as_str());
                proof {
                    assert(out.deep_view() =~= p2);
                }
            },
            None => {
                proof {
                    assert(out.deep_view() =~= p2);
                }
            },
        }
        match &self.player {
            Some(p) => {
                push_kv(out, "player", p.as_str());
                proof {
                    assert(out.deep_view() =~= p3);
                }
            },
            None => {
                proof {
                    assert(out.deep_view() =~= p3);
                }
            },
        }
        push_kv(out, "audiosync", format_bool(self.audiosync).as_str());
        push_kv(
            out,
            "audiosync-calibration-ms",
            format_i32(self.audiosync_calibration).as_str(),
        );
        push_kv(out, "player-flags", self.mpv_flags.as_str());
        proof {
            assert(out.deep_view() =~= b0 + defaults_lines_of(self@));
        }
    }

    /// Write the `[SpotifyWeb]` section onto the end of `out`.
    #[verifier::rlimit(60)]
    fn push_web(&self, out: &mut Vec<String>)
        ensures
            final(out).deep_view() == old(out).deep_view() + web_lines_of(self@),
    {
        let ghost b0 = out.deep_view();
        let ghost p1 = b0 + seq![("[SpotifyWeb]")@];
        let ghost p2 = p1 + opt_kv_lines(("client-id")@, self@.client_id);
        let ghost p3 = p2 + opt_kv_lines(("client-secret")@, self@.client_secret);
        let ghost p4 = p3 + seq![kv_line(("redirect-uri")@, self@.redirect_uri)];
        out.push(String::from_str("[SpotifyWeb]"));
        proof {
            assert(out.deep_view() =~= p1);
        }
        match &self.client_id {
            Some(s) => {
                push_kv(out, "client-id", s.as_str());
                proof {
                    assert(out.deep_view() =~= p2);
                }
            },
            None => {
                proof {
                    assert(out.deep_view() =~= p2);
                }
            },
        }
        match &self.client_secret {
            Some(s) => {
                push_kv(out, "client-secret", s.as_str());
                proof {
                    assert(out.deep_view() =~= p3);
                }
            },
            None => {
                proof {
                    assert(out.deep_view() =~= p3);
                }
            },
        }
        push_kv(out, "redirect-uri", self.redirect_uri.as_str());
        proof {
            assert(out.deep_view() =~= p4);
        }
        match &self.refresh_token {
            Some(s) => {
                push_kv(out, "refresh-token", s.as_str());
                proof {
                    assert(out.deep_view() =~= b0 + web_lines_of(self@));
                }
            },
            None => {
                proof {
                    assert(out.deep_view() =~= b0 + web_lines_of(self@));
                }
            },
        }
    }

    /// The settings file this configuration writes, line by line.
    pub fn to_lines(&self) -> (r: Vec<String>)
        ensures
            r.deep_view() == config_lines(self@),
    {
        let mut out: Vec<String> = Vec::new();
        proof {
            assert(out.deep_view() =~= Seq::<Seq<char>>::empty());
        }
        self.push_defaults(&mut out);
        self.push_web(&mut out);
        proof {
            assert(out.deep_view() =~= config_lines(self@));
        }
        out
    }

    /// The whole settings file as one text, lines joined by newlines.
    pub fn to_ini(&self) -> (r: String)
        ensures
            r@ == crate::text::join_with(config_lines(self@), '\n'),
    {
        let lines = self.to_lines();
        proof {
            assert(lines.deep_view().len() >= 1);
            reveal_strlit("\n");
        }
        crate::text::join_str(&lines, "\n")
    }
}

// ---------------------------------------------------------------------
// Reading back what was written
// ---------------------------------------------------------------------

/// A written `key=value` line parses back to exactly that key and
/// value, as long as the key holds no `=` and does not look like a
/// section header.
pub proof fn lemma_kv_line_parses(key: Seq<char>, val: Seq<char>)
    requires
        key.len() > 0,
        key[0] != '[',
        forall|i: int| 0 <= i < key.len() ==> key[i] != '=',
    ensures
        is_kv(kv_line(key, val)),
        !is_header(kv_line(key, val)),
        kv_key(kv_line(key, val)) == key,
        kv_val(kv_line(key, val)) == val,
{
    let l = kv_line(key, val);
    assert(l[key.len() as int] == '=');
    assert(l[0] == key[0]);
    lemma_find_from_props(l, 0, '=');
    match find_from(l, 0, '=') {
        None => {
            assert(false);
        },
        Some(i) => {
            if i < key.len() {
                assert(l[i] == key[i]);
                assert(false);
            }
            if i > key.len() {
                assert(false);
            }
            assert(kv_key(l) =~= key);
            assert(kv_val(l) =~= val);
        },
    }
}

/// Looking a key up distributes over splitting the lines anywhere:
/// the later part is searched first, under the section the earlier
/// part leaves in force.
pub proof fn lemma_ini_append(
    a: Seq<Seq<char>>,
    b: Seq<Seq<char>>,
    init: Seq<char>,
    sec: Seq<char>,
    key: Seq<char>,
)
    ensures
        cur_section(a + b, init) == cur_section(b, cur_section(a, init)),
        ini_get(a + b, init, sec, key) == match ini_get(b, cur_section(a, init), sec, key) {
            Some(v) => Some(v),
            None => ini_get(a, init, sec, key),
        },
    decreases b.len(),
{
    if b.len() == 0 {
        assert(a + b =~= a);
    } else {
        lemma_ini_append(a, b.drop_last(), init, sec, key);
        assert((a + b).drop_last() =~= a + b.drop_last());
        assert((a + b).last() == b.last());
    }
}

/// No line of `ls` is a key-value line for `key`.
pub open spec fn free_of_key(ls: Seq<Seq<char>>, key: Seq<char>) -> bool {
    forall|i: int| 0 <= i < ls.len() ==> !(is_kv(#[trigger] ls[i]) && kv_key(ls[i]) == key)
}

/// No line of `ls` is a section header.
pub open spec fn free_of_headers(ls: Seq<Seq<char>>) -> bool {
    forall|i: int| 0 <= i < ls.len() ==> !is_header(#[trigger] ls[i])
}

/// Lines without a key-value entry for `key` yield nothing for it.
pub proof fn lemma_ini_get_free(ls: Seq<Seq<char>>, init: Seq<char>, sec: Seq<char>, key: Seq<
    char,
>)
    requires
        free_of_key(ls, key),
    ensures
        ini_get(ls, init, sec, key) is None,
    decreases ls.len(),
{
    if ls.len() > 0 {
        assert(!(is_kv(ls[ls.len() - 1]) && kv_key(ls[ls.len() - 1]) == key));
        assert(free_of_key(ls.drop_last(), key)) by {
            assert forall|i: int| 0 <= i < ls.drop_last().len() implies !(is_kv(
                #[trigger] ls.drop_last()[i],
            ) && kv_key(ls.drop_last()[i]) == key) by {
                assert(ls.drop_last()[i] == ls[i]);
            }
        }
        lemma_ini_get_free(ls.drop_last(), init, sec, key);
    }
}

/// Lines without a header leave the section as it was.
pub proof fn lemma_cur_section_free(ls: Seq<Seq<char>>, init: Seq<char>)
    requires
        free_of_headers(ls),
    ensures
        cur_section(ls, init) == init,
    decreases ls.len(),
{
    if ls.len() > 0 {
        assert(!is_header(ls[ls.len() - 1]));
        assert(free_of_headers(ls.drop_last())) by {
            assert forall|i: int| 0 <= i < ls.drop_last().len() implies !is_header(
                #[trigger] ls.drop_last()[i],
            ) by {
                assert(ls.drop_last()[i] == ls[i]);
            }
        }
        lemma_cur_section_free(ls.drop_last(), init);
    }
}

/// Freedom from a key survives concatenation.
pub proof fn lemma_free_of_key_append(a: Seq<Seq<char>>, b: Seq<Seq<char>>, key: Seq<char>)
    requires
        free_of_key(a, key),
        free_of_key(b, key),
    ensures
        free_of_key(a + b, key),
{
    assert forall|i: int| 0 <= i < (a + b).len() implies !(is_kv(#[trigger] (a + b)[i]) && kv_key(
        (a + b)[i],
    ) == key) by {
        if i < a.len() {
            assert((a + b)[i] == a[i]);
        } else {
            assert((a + b)[i] == b[i - a.len()]);
        }
    }
}

/// Freedom from headers survives concatenation.
pub proof fn lemma_free_of_headers_append(a: Seq<Seq<char>>, b: Seq<Seq<char>>)
    requires
        free_of_headers(a),
        free_of_headers(b),
    ensures
        free_of_headers(a + b),
{
    assert forall|i: int| 0 <= i < (a + b).len() implies !is_header(#[trigger] (a + b)[i]) by {
        if i < a.len() {
            assert((a + b)[i] == a[i]);
        } else {
            assert((a + b)[i] == b[i - a.len()]);
        }
    }
}

/// Entries that sit under one section yield nothing for another.
pub proof fn lemma_ini_get_other_section(
    ls: Seq<Seq<char>>,
    init: Seq<char>,
    sec: Seq<char>,
    key: Seq<char>,
)
    requires
        free_of_headers(ls),
        init != sec,
    ensures
        ini_get(ls, init, sec, key) is None,
    decreases ls.len(),
{
    if ls.len() > 0 {
        assert(free_of_headers(ls.drop_last())) by {
            assert forall|i: int| 0 <= i < ls.drop_last().len() implies !is_header(
                #[trigger] ls.drop_last()[i],
            ) by {
                assert(ls.drop_last()[i] == ls[i]);
            }
        }
        lemma_cur_section_free(ls.drop_last(), init);
        lemma_ini_get_other_section(ls.drop_last(), init, sec, key);
    }
}

/// Within one section, the last entry for a key decides its value:
/// whatever stands before it, and whatever keyless lines follow.
pub proof fn lemma_last_entry_wins(
    x: Seq<Seq<char>>,
    line: Seq<char>,
    y: Seq<Seq<char>>,
    init: Seq<char>,
    key: Seq<char>,
)
    requires
        free_of_headers(x),
        is_kv(line),
        kv_key(line) == key,
        free_of_key(y, key),
    ensures
        ini_get(x + (seq![line] + y), init, init, key) == Some(kv_val(line)),
{
    lemma_cur_section_free(x, init);
    lemma_ini_append(x, seq![line] + y, init, init, key);
    lemma_ini_append(seq![line], y, init, init, key);
    lemma_ini_get_free(y, init, init, key);
    assert(seq![line].drop_last() =~= Seq::<Seq<char>>::empty());
    assert(cur_section(seq![line], init) == init);
    assert(ini_get(seq![line], init, init, key) == Some(kv_val(line)));
}

/// A written line never breaks: neither its key, `=`, nor its
/// single-line value holds a newline.
pub proof fn lemma_kv_line_sep_free(key: Seq<char>, val: Seq<char>)
    requires
        forall|i: int| 0 <= i < key.len() ==> key[i] != '\n',
        forall|i: int| 0 <= i < val.len() ==> val[i] != '\n',
    ensures
        crate::text::sep_free(kv_line(key, val), '\n'),
{
    let l = kv_line(key, val);
    assert forall|i: int| 0 <= i < l.len() implies l[i] != '\n' by {
        if i < key.len() {
            assert(l[i] == key[i]);
        } else if i > key.len() {
            assert(l[i] == val[i - key.len() - 1]);
        }
    }
}

/// The file round trip for one written entry: a section header
/// followed by a written `key=value` line, joined into one text and
/// parsed again, yields exactly the written value for that key under
/// that section.
pub proof fn lemma_file_entry_round_trip(sec: Seq<char>, key: Seq<char>, val: Seq<char>)
    requires
        key.len() > 0,
        key[0] != '[',
        forall|i: int| 0 <= i < key.len() ==> key[i] != '=' && key[i] != '\n',
        forall|i: int| 0 <= i < val.len() ==> val[i] != '\n',
        forall|i: int| 0 <= i < sec.len() ==> sec[i] != '\n',
    ensures
        ({
            let text = crate::text::join_with(
                seq![seq!['['] + sec + seq![']'], kv_line(key, val)],
                '\n',
            );
            ini_get(split_on(text, '\n'), Seq::<char>::empty(), sec, key) == Some(val)
        }),
{
    let hdr = seq!['['] + sec + seq![']'];
    let line = kv_line(key, val);
    let lines = seq![hdr, line];
    assert(crate::text::sep_free(hdr, '\n')) by {
        assert forall|i: int| 0 <= i < hdr.len() implies hdr[i] != '\n' by {
            if 1 <= i < 1 + sec.len() {
                assert(hdr[i] == sec[i - 1]);
            }
        }
    }
    assert(crate::text::sep_free(line, '\n')) by {
        assert forall|i: int| 0 <= i < line.len() implies line[i] != '\n' by {
            if i < key.len() {
                assert(line[i] == key[i]);
            } else if i > key.len() {
                assert(line[i] == val[i - key.len() - 1]);
            }
        }
    }
    assert(crate::text::all_sep_free(lines, '\n')) by {
        assert(lines[0] == hdr);
        assert(lines[1] == line);
    }
    crate::text::lemma_split_join(lines, '\n');
    lemma_kv_line_parses(key, val);
    assert(is_header(hdr));
    assert(header_name(hdr) =~= sec);
    assert(lines.drop_last() =~= seq![hdr]);
    assert(cur_section(seq![hdr], Seq::<char>::empty()) == sec);
    assert(ini_get(lines, Seq::<char>::empty(), sec, key) == Some(val));
}

/// No entry the writer emits looks like a section header.
proof fn lemma_bodies_shape(c: ConfigV)
    ensures
        free_of_headers(defaults_body(c)),
        free_of_headers(web_body(c)),
{
    reveal_strlit("debug");
    reveal_strlit("lyrics-enabled");
    reveal_strlit("fullscreen");
    reveal_strlit("dark-mode");
    reveal_strlit("stay-on-top");
    reveal_strlit("api");
    reveal_strlit("player");
    reveal_strlit("audiosync");
    reveal_strlit("audiosync-calibration-ms");
    reveal_strlit("player-flags");
    reveal_strlit("client-id");
    reveal_strlit("client-secret");
    reveal_strlit("redirect-uri");
    reveal_strlit("refresh-token");
    assert forall|key: Seq<char>, val: Seq<char>|
        key.len() > 0 && key[0] != '[' implies !is_header(#[trigger] kv_line(key, val)) by {
        assert(kv_line(key, val)[0] == key[0]);
    }
    let b1 = seq![
        kv_line(("debug")@, format_bool_spec(c.debug)),
        kv_line(("lyrics-enabled")@, format_bool_spec(c.lyrics)),
        kv_line(("fullscreen")@, format_bool_spec(c.fullscreen)),
        kv_line(("dark-mode")@, format_bool_spec(c.dark_mode)),
        kv_line(("stay-on-top")@, format_bool_spec(c.stay_on_top)),
    ];
    let b2 = seq![
        kv_line(("audiosync")@, format_bool_spec(c.audiosync)),
        kv_line(("audiosync-calibration-ms")@, format_i32_spec(c.audiosync_calibration as int)),
        kv_line(("player-flags")@, c.mpv_flags),
    ];
    assert(free_of_headers(b1));
    assert(free_of_headers(b2));
    assert(free_of_headers(api_lines(c.api))) by {
        match c.api {
            Some(a) => {
                assert(api_lines(c.api)[0] == kv_line(("api")@, crate::api::api_name(a)));
            },
            None => {
                assert(api_lines(c.api).len() == 0);
            },
        }
    }
    assert(free_of_headers(player_lines(c.player))) by {
        match c.player {
            Some(p) => {
                assert(player_lines(c.player)[0] == kv_line(
                    ("player")@,
                    crate::player::player_name(p),
                ));
            },
            None => {
                assert(player_lines(c.player).len() == 0);
            },
        }
    }
    lemma_free_of_headers_append(b1, api_lines(c.api));
    lemma_free_of_headers_append(b1 + api_lines(c.api), player_lines(c.player));
    lemma_free_of_headers_append(b1 + api_lines(c.api) + player_lines(c.player), b2);
    assert(defaults_body(c) == b1 + api_lines(c.api) + player_lines(c.player) + b2);
    assert(free_of_headers(opt_kv_lines(("client-id")@, c.client_id))) by {
        match c.client_id {
            Some(v) => {
                assert(opt_kv_lines(("client-id")@, c.client_id)[0] == kv_line(("client-id")@, v));
            },
            None => {
                assert(opt_kv_lines(("client-id")@, c.client_id).len() == 0);
            },
        }
    }
    assert(free_of_headers(opt_kv_lines(("client-secret")@, c.client_secret))) by {
        match c.client_secret {
            Some(v) => {
                assert(opt_kv_lines(("client-secret")@, c.client_secret)[0] == kv_line(
                    ("client-secret")@,
                    v,
                ));
            },
            None => {
                assert(opt_kv_lines(("client-secret")@, c.client_secret).len() == 0);
            },
        }
    }
    assert(free_of_headers(opt_kv_lines(("refresh-token")@, c.refresh_token))) by {
        match c.refresh_token {
            Some(v) => {
                assert(opt_kv_lines(("refresh-token")@, c.refresh_token)[0] == kv_line(
                    ("refresh-token")@,
                    v,
                ));
            },
            None => {
                assert(opt_kv_lines(("refresh-token")@, c.refresh_token).len() == 0);
            },
        }
    }
    let r1 = seq![kv_line(("redirect-uri")@, c.redirect_uri)];
    assert(free_of_headers(r1));
    lemma_free_of_headers_append(
        opt_kv_lines(("client-id")@, c.client_id),
        opt_kv_lines(("client-secret")@, c.client_secret),
    );
    lemma_free_of_headers_append(
        opt_kv_lines(("client-id")@, c.client_id) + opt_kv_lines(
            ("client-secret")@,
            c.client_secret,
        ),
        r1,
    );
    lemma_free_of_headers_append(
        opt_kv_lines(("client-id")@, c.client_id) + opt_kv_lines(
            ("client-secret")@,
            c.client_secret,
        ) + r1,
        opt_kv_lines(("refresh-token")@, c.refresh_token),
    );
    assert(web_body(c) == opt_kv_lines(("client-id")@, c.client_id) + opt_kv_lines(
        ("client-secret")@,
        c.client_secret,
    ) + r1 + opt_kv_lines(("refresh-token")@, c.refresh_token));
}

/// A lone header line answers no lookup.
proof fn lemma_ini_get_header_only(h: Seq<char>, init: Seq<char>, sec: Seq<char>, key: Seq<char>)
    requires
        is_header(h),
    ensures
        ini_get(seq![h], init, sec, key) is None,
{
    assert(seq![h].drop_last() =~= Seq::<Seq<char>>::empty());
    assert(ini_get(Seq::<Seq<char>>::empty(), init, sec, key) is None);
}

/// A key under one section is decided by that section's entries
/// alone.
proof fn lemma_section_split(c: ConfigV)
    ensures
        forall|key: Seq<char>|
            #[trigger] ini_get(config_lines(c), Seq::<char>::empty(), ("Defaults")@, key)
                == ini_get(defaults_body(c), ("Defaults")@, ("Defaults")@, key),
        forall|key: Seq<char>|
            #[trigger] ini_get(config_lines(c), Seq::<char>::empty(), ("SpotifyWeb")@, key)
                == ini_get(web_body(c), ("SpotifyWeb")@, ("SpotifyWeb")@, key),
{
    reveal_strlit("[Defaults]");
    reveal_strlit("Defaults");
    reveal_strlit("[SpotifyWeb]");
    reveal_strlit("SpotifyWeb");
    let e = Seq::<char>::empty();
    let hd = ("[Defaults]")@;
    let hs = ("[SpotifyWeb]")@;
    let nd = ("Defaults")@;
    let ns = ("SpotifyWeb")@;
    let dd = defaults_lines_of(c);
    let ww = web_lines_of(c);
    let db = defaults_body(c);
    let wb = web_body(c);
    lemma_bodies_shape(c);
    assert(is_header(hd));
    assert(header_name(hd) =~= nd);
    assert(is_header(hs));
    assert(header_name(hs) =~= ns);
    assert(nd != ns);
    assert(seq![hd].drop_last() =~= Seq::<Seq<char>>::empty());
    assert(seq![hs].drop_last() =~= Seq::<Seq<char>>::empty());
    assert forall|key: Seq<char>|
        #[trigger] ini_get(config_lines(c), e, nd, key) == ini_get(db, nd, nd, key) by {
        lemma_ini_append(dd, ww, e, nd, key);
        lemma_ini_append(seq![hd], db, e, nd, key);
        lemma_cur_section_free(db, nd);
        assert(cur_section(seq![hd], e) == nd);
        assert(cur_section(dd, e) == nd);
        lemma_ini_append(seq![hs], wb, nd, nd, key);
        assert(cur_section(seq![hs], nd) == ns);
        lemma_ini_get_other_section(wb, ns, nd, key);
        lemma_ini_get_header_only(hs, nd, nd, key);
        assert(ini_get(ww, nd, nd, key) is None);
        lemma_ini_get_header_only(hd, e, nd, key);
        assert(ini_get(dd, e, nd, key) == ini_get(db, nd, nd, key));
    }
    assert forall|key: Seq<char>|
        #[trigger] ini_get(config_lines(c), e, ns, key) == ini_get(wb, ns, ns, key) by {
        lemma_ini_append(dd, ww, e, ns, key);
        lemma_ini_append(seq![hd], db, e, ns, key);
        lemma_cur_section_free(db, nd);
        assert(cur_section(seq![hd], e) == nd);
        assert(cur_section(dd, e) == nd);
        lemma_ini_get_other_section(db, nd, ns, key);
        lemma_ini_get_header_only(hd, e, ns, key);
        assert(ini_get(dd, e, ns, key) is None);
        lemma_ini_append(seq![hs], wb, nd, ns, key);
        assert(cur_section(seq![hs], nd) == ns);
        lemma_ini_get_header_only(hs, nd, ns, key);
        assert(ini_get(ww, nd, ns, key) == ini_get(wb, ns, ns, key));
    }
}

proof fn lemma_lookup_debug(c: ConfigV)
    ensures
        ini_get(defaults_body(c), ("Defaults")@, ("Defaults")@, ("debug")@) == Some(format_bool_spec(c.debug)),
{
    reveal_strlit("debug");
    reveal_strlit("lyrics-enabled");
    reveal_strlit("fullscreen");
    reveal_strlit("dark-mode");
    reveal_strlit("stay-on-top");
    reveal_strlit("api");
    reveal_strlit("player");
    reveal_strlit("audiosync");
    reveal_strlit("audiosync-calibration-ms");
    reveal_strlit("player-flags");
    reveal_strlit("client-id");
    reveal_strlit("client-secret");
    reveal_strlit("redirect-uri");
    reveal_strlit("refresh-token");
    lemma_bodies_shape(c);
    lemma_kv_line_parses(("debug")@, format_bool_spec(c.debug));
    lemma_kv_line_parses(("lyrics-enabled")@, format_bool_spec(c.lyrics));
    lemma_kv_line_parses(("fullscreen")@, format_bool_spec(c.fullscreen));
    lemma_kv_line_parses(("dark-mode")@, format_bool_spec(c.dark_mode));
    lemma_kv_line_parses(("stay-on-top")@, format_bool_spec(c.stay_on_top));
    lemma_kv_line_parses(("audiosync")@, format_bool_spec(c.audiosync));
    lemma_kv_line_parses(("audiosync-calibration-ms")@, format_i32_spec(c.audiosync_calibration as int));
    lemma_kv_line_parses(("player-flags")@, c.mpv_flags);
    assert(free_of_key(seq![kv_line(("lyrics-enabled")@, format_bool_spec(c.lyrics)), kv_line(("fullscreen")@, format_bool_spec(c.fullscreen)), kv_line(("dark-mode")@, format_bool_spec(c.dark_mode)), kv_line(("stay-on-top")@, format_bool_spec(c.stay_on_top))], ("debug")@)) by {
            assert(seq![kv_line(("lyrics-enabled")@, format_bool_spec(c.lyrics)), kv_line(("fullscreen")@, format_bool_spec(c.fullscreen)), kv_line(("dark-mode")@, format_bool_spec(c.dark_mode)), kv_line(("stay-on-top")@, format_bool_spec(c.stay_on_top))][0] == kv_line(("lyrics-enabled")@, format_bool_spec(c.lyrics)));
            assert(seq![kv_line(("lyrics-enabled")@, format_bool_spec(c.lyrics)), kv_line(("fullscreen")@, format_bool_spec(c.fullscreen)), kv_line(("dark-mode")@, format_bool_spec(c.dark_mode)), kv_line(("stay-on-top")@, format_bool_spec(c.stay_on_top))][1] == kv_line(("fullscreen")@, format_bool_spec(c.fullscreen)));
            assert(seq![kv_line(("lyrics-enabled")@, format_bool_spec(c.lyrics)), kv_line(("fullscreen")@, format_bool_spec(c.fullscreen)), kv_line(("dark-mode")@, format_bool_spec(c.dark_mode)), kv_line(("stay-on-top")@, format_bool_spec(c.stay_on_top))][2] == kv_line(("dark-mode")@, format_bool_spec(c.dark_mode)));
            assert(seq![kv_line(("lyrics-enabled")@, format_bool_spec(c.lyrics)), kv_line(("fullscreen")@, format_bool_spec(c.fullscreen)), kv_line(("dark-mode")@, format_bool_spec(c.dark_mode)), kv_line(("stay-on-top")@, format_bool_spec(c.stay_on_top))][3] == kv_line(("stay-on-top")@, format_bool_spec(c.stay_on_top)));
    }
    assert(free_of_key(api_lines(c.api), ("debug")@)) by {
        match c.api {
            Some(a) => {
                lemma_kv_line_parses(("api")@, crate::api::api_name(a));
                assert(api_lines(c.api)[0] == kv_line(("api")@, crate::api::api_name(a)));
            },
            None => {
                assert(api_lines(c.api).len() == 0);
            },
        }
    }
    assert(free_of_key(player_lines(c.player), ("debug")@)) by {
        match c.player {
            Some(a) => {
                lemma_kv_line_parses(("player")@, crate::player::player_name(a));
                assert(player_lines(c.player)[0] == kv_line(("player")@, crate::player::player_name(a)));
            },
            None => {
                assert(player_lines(c.player).len() == 0);
            },
        }
    }
    assert(free_of_key(seq![kv_line(("audiosync")@, format_bool_spec(c.audiosync)), kv_line(("audiosync-calibration-ms")@, format_i32_spec(c.audiosync_calibration as int)), kv_line(("player-flags")@, c.mpv_flags)], ("debug")@)) by {
            assert(seq![kv_line(("audiosync")@, format_bool_spec(c.audiosync)), kv_line(("audiosync-calibration-ms")@, format_i32_spec(c.audiosync_calibration as int)), kv_line(("player-flags")@, c.mpv_flags)][0] == kv_line(("audiosync")@, format_bool_spec(c.audiosync)));
            assert(seq![kv_line(("audiosync")@, format_bool_spec(c.audiosync)), kv_line(("audiosync-calibration-ms")@, format_i32_spec(c.audiosync_calibration as int)), kv_line(("player-flags")@, c.mpv_flags)][1] == kv_line(("audiosync-calibration-ms")@, format_i32_spec(c.audiosync_calibration as int)));
            assert(seq![kv_line(("audiosync")@, format_bool_spec(c.audiosync)), kv_line(("audiosync-calibration-ms")@, format_i32_spec(c.audiosync_calibration as int)), kv_line(("player-flags")@, c.mpv_flags)][2] == kv_line(("player-flags")@, c.mpv_flags));
    }
    lemma_free_of_key_append(seq![kv_line(("lyrics-enabled")@, format_bool_spec(c.lyrics)), kv_line(("fullscreen")@, format_bool_spec(c.fullscreen)), kv_line(("dark-mode")@, format_bool_spec(c.dark_mode)), kv_line(("stay-on-top")@, format_bool_spec(c.stay_on_top))], api_lines(c.api), ("debug")@);
    lemma_free_of_key_append(seq![kv_line(("lyrics-enabled")@, format_bool_spec(c.lyrics)), kv_line(("fullscreen")@, format_bool_spec(c.fullscreen)), kv_line(("dark-mode")@, format_bool_spec(c.dark_mode)), kv_line(("stay-on-top")@, format_bool_spec(c.stay_on_top))] + api_lines(c.api), player_lines(c.player), ("debug")@);
    lemma_free_of_key_append(seq![kv_line(("lyrics-enabled")@, format_bool_spec(c.lyrics)), kv_line(("fullscreen")@, format_bool_spec(c.fullscreen)), kv_line(("dark-mode")@, format_bool_spec(c.dark_mode)), kv_line(("stay-on-top")@, format_bool_spec(c.stay_on_top))] + api_lines(c.api) + player_lines(c.player), seq![kv_line(("audiosync")@, format_bool_spec(c.audiosync)), kv_line(("audiosync-calibration-ms")@, format_i32_spec(c.audiosync_calibration as int)), kv_line(("player-flags")@, c.mpv_flags)], ("debug")@);
    assert(free_of_headers(Seq::<Seq<char>>::empty()));
    lemma_last_entry_wins(
        Seq::<Seq<char>>::empty(),
        kv_line(("debug")@, format_bool_spec(c.debug)),
        seq![kv_line(("lyrics-enabled")@, format_bool_spec(c.lyrics)), kv_line(("fullscreen")@, format_bool_spec(c.fullscreen)), kv_line(("dark-mode")@, format_bool_spec(c.dark_mode)), kv_line(("stay-on-top")@, format_bool_spec(c.stay_on_top))] + api_lines(c.api) + player_lines(c.player) + seq![kv_line(("audiosync")@, format_bool_spec(c.audiosync)), kv_line(("audiosync-calibration-ms")@, format_i32_spec(c.audiosync_calibration as int)), kv_line(("player-flags")@, c.mpv_flags)],
        ("Defaults")@,
        ("debug")@,
    );
    assert(defaults_body(c) =~= Seq::<Seq<char>>::empty() + (seq![kv_line(("debug")@, format_bool_spec(c.debug))] + (seq![kv_line(("lyrics-enabled")@, format_bool_spec(c.lyrics)), kv_line(("fullscreen")@, format_bool_spec(c.fullscreen)), kv_line(("dark-mode")@, format_bool_spec(c.dark_mode)), kv_line(("stay-on-top")@, format_bool_spec(c.stay_on_top))] + api_lines(c.api) + player_lines(c.player) + seq![kv_line(("audiosync")@, format_bool_spec(c.audiosync)), kv_line(("audiosync-calibration-ms")@, format_i32_spec(c.audiosync_calibration as int)), kv_line(("player-flags")@, c.mpv_flags)])));
}

proof fn lemma_lookup_lyrics_enabled(c: ConfigV)
    ensures
        ini_get(defaults_body(c), ("Defaults")@, ("Defaults")@, ("lyrics-enabled")@) == Some(format_bool_spec(c.lyrics)),
{
    reveal_strlit("debug");
    reveal_strlit("lyrics-enabled");
    reveal_strlit("fullscreen");
    reveal_strlit("dark-mode");
    reveal_strlit("stay-on-top");
    reveal_strlit("api");
    reveal_strlit("player");
    reveal_strlit("audiosync");
    reveal_strlit("audiosync-calibration-ms");
    reveal_strlit("player-flags");
    reveal_strlit("client-id");
    reveal_strlit("client-secret");
    reveal_strlit("redirect-uri");
    reveal_strlit("refresh-token");
    lemma_bodies_shape(c);
    lemma_kv_line_parses(("lyrics-enabled")@, format_bool_spec(c.lyrics));
    lemma_kv_line_parses(("fullscreen")@, format_bool_spec(c.fullscreen));
    lemma_kv_line_parses(("dark-mode")@, format_bool_spec(c.dark_mode));
    lemma_kv_line_parses(("stay-on-top")@, format_bool_spec(c.stay_on_top));
    lemma_kv_line_parses(("audiosync")@, format_bool_spec(c.audiosync));
    lemma_kv_line_parses(("audiosync-calibration-ms")@, format_i32_spec(c.audiosync_calibration as int));
    lemma_kv_line_parses(("player-flags")@, c.mpv_flags);
    assert(free_of_key(seq![kv_line(("fullscreen")@, format_bool_spec(c.fullscreen)), kv_line(("dark-mode")@, format_bool_spec(c.dark_mode)), kv_line(("stay-on-top")@, format_bool_spec(c.stay_on_top))], ("lyrics-enabled")@)) by {
            assert(seq![kv_line(("fullscreen")@, format_bool_spec(c.fullscreen)), kv_line(("dark-mode")@, format_bool_spec(c.dark_mode)), kv_line(("stay-on-top")@, format_bool_spec(c.stay_on_top))][0] == kv_line(("fullscreen")@, format_bool_spec(c.fullscreen)));
            assert(seq![kv_line(("fullscreen")@, format_bool_spec(c.fullscreen)), kv_line(("dark-mode")@, format_bool_spec(c.dark_mode)), kv_line(("stay-on-top")@, format_bool_spec(c.stay_on_top))][1] == kv_line(("dark-mode")@, format_bool_spec(c.dark_mode)));
            assert(seq![kv_line(("fullscreen")@, format_bool_spec(c.fullscreen)), kv_line(("dark-mode")@, format_bool_spec(c.dark_mode)), kv_line(("stay-on-top")@, format_bool_spec(c.stay_on_top))][2] == kv_line(("stay-on-top")@, format_bool_spec(c.stay_on_top)));
    }
    assert(free_of_key(api_lines(c.api), ("lyrics-enabled")@)) by {
        match c.api {
            Some(a) => {
                lemma_kv_line_parses(("api")@, crate::api::api_name(a));
                assert(api_lines(c.api)[0] == kv_line(("api")@, crate::api::api_name(a)));
            },
            None => {
                assert(api_lines(c.api).len() == 0);
            },
        }
    }
    assert(free_of_key(player_lines(c.player), ("lyrics-enabled")@)) by {
        match c.player {
            Some(a) => {
                lemma_kv_line_parses(("player")@, crate::player::player_name(a));
                assert(player_lines(c.player)[0] == kv_line(("player")@, crate::player::player_name(a)));
            },
            None => {
                assert(player_lines(c.player).len() == 0);
            },
        }
    }
    assert(free_of_key(seq![kv_line(("audiosync")@, format_bool_spec(c.audiosync)), kv_line(("audiosync-calibration-ms")@, format_i32_spec(c.audiosync_calibration as int)), kv_line(("player-flags")@, c.mpv_flags)], ("lyrics-enabled")@)) by {
            assert(seq![kv_line(("audiosync")@, format_bool_spec(c.audiosync)), kv_line(("audiosync-calibration-ms")@, format_i32_spec(c.audiosync_calibration as int)), kv_line(("player-flags")@, c.mpv_flags)][0] == kv_line(("audiosync")@, format_bool_spec(c.audiosync)));
            assert(seq![kv_line(("audiosync")@, format_bool_spec(c.audiosync)), kv_line(("audiosync-calibration-ms")@, format_i32_spec(c.audiosync_calibration as int)), kv_line(("player-flags")@, c.mpv_flags)][1] == kv_line(("audiosync-calibration-ms")@, format_i32_spec(c.audiosync_calibration as int)));
            assert(seq![kv_line(("audiosync")@, format_bool_spec(c.audiosync)), kv_line(("audiosync-calibration-ms")@, format_i32_spec(c.audiosync_calibration as int)), kv_line(("player-flags")@, c.mpv_flags)][2] == kv_line(("player-flags")@, c.mpv_flags));
    }
    lemma_free_of_key_append(seq![kv_line(("fullscreen")@, format_bool_spec(c.fullscreen)), kv_line(("dark-mode")@, format_bool_spec(c.dark_mode)), kv_line(("stay-on-top")@, format_bool_spec(c.stay_on_top))], api_lines(c.api), ("lyrics-enabled")@);
    lemma_free_of_key_append(seq![kv_line(("fullscreen")@, format_bool_spec(c.fullscreen)), kv_line(("dark-mode")@, format_bool_spec(c.dark_mode)), kv_line(("stay-on-top")@, format_bool_spec(c.stay_on_top))] + api_lines(c.api), player_lines(c.player), ("lyrics-enabled")@);
    lemma_free_of_key_append(seq![kv_line(("fullscreen")@, format_bool_spec(c.fullscreen)), kv_line(("dark-mode")@, format_bool_spec(c.dark_mode)), kv_line(("stay-on-top")@, format_bool_spec(c.stay_on_top))] + api_lines(c.api) + player_lines(c.player), seq![kv_line(("audiosync")@, format_bool_spec(c.audiosync)), kv_line(("audiosync-calibration-ms")@, format_i32_spec(c.audiosync_calibration as int)), kv_line(("player-flags")@, c.mpv_flags)], ("lyrics-enabled")@);
    assert(free_of_headers(seq![kv_line(("debug")@, format_bool_spec(c.debug))])) by {
            assert(seq![kv_line(("debug")@, format_bool_spec(c.debug))][0] == kv_line(("debug")@, format_bool_spec(c.debug)));
            assert(kv_line(("debug")@, format_bool_spec(c.debug))[0] == (("debug")@)[0]);
    }
    lemma_last_entry_wins(
        seq![kv_line(("debug")@, format_bool_spec(c.debug))],
        kv_line(("lyrics-enabled")@, format_bool_spec(c.lyrics)),
        seq![kv_line(("fullscreen")@, format_bool_spec(c.fullscreen)), kv_line(("dark-mode")@, format_bool_spec(c.dark_mode)), kv_line(("stay-on-top")@, format_bool_spec(c.stay_on_top))] + api_lines(c.api) + player_lines(c.player) + seq![kv_line(("audiosync")@, format_bool_spec(c.audiosync)), kv_line(("audiosync-calibration-ms")@, format_i32_spec(c.audiosync_calibration as int)), kv_line(("player-flags")@, c.mpv_flags)],
        ("Defaults")@,
        ("lyrics-enabled")@,
    );
    assert(defaults_body(c) =~= seq![kv_line(("debug")@, format_bool_spec(c.debug))] + (seq![kv_line(("lyrics-enabled")@, format_bool_spec(c.lyrics))] + (seq![kv_line(("fullscreen")@, format_bool_spec(c.fullscreen)), kv_line(("dark-mode")@, format_bool_spec(c.dark_mode)), kv_line(("stay-on-top")@, format_bool_spec(c.stay_on_top))] + api_lines(c.api) + player_lines(c.player) + seq![kv_line(("audiosync")@, format_bool_spec(c.audiosync)), kv_line(("audiosync-calibration-ms")@, format_i32_spec(c.audiosync_calibration as int)), kv_line(("player-flags")@, c.mpv_flags)])));
}

proof fn lemma_lookup_fullscreen(c: ConfigV)
    ensures
        ini_get(defaults_body(c), ("Defaults")@, ("Defaults")@, ("fullscreen")@) == Some(format_bool_spec(c.fullscreen)),
{
    reveal_strlit("debug");
    reveal_strlit("lyrics-enabled");
    reveal_strlit("fullscreen");
    reveal_strlit("dark-mode");
    reveal_strlit("stay-on-top");
    reveal_strlit("api");
    reveal_strlit("player");
    reveal_strlit("audiosync");
    reveal_strlit("audiosync-calibration-ms");
    reveal_strlit("player-flags");
    reveal_strlit("client-id");
    reveal_strlit("client-secret");
    reveal_strlit("redirect-uri");
    reveal_strlit("refresh-token");
    lemma_bodies_shape(c);
    lemma_kv_line_parses(("fullscreen")@, format_bool_spec(c.fullscreen));
    lemma_kv_line_parses(("dark-mode")@, format_bool_spec(c.dark_mode));
    lemma_kv_line_parses(("stay-on-top")@, format_bool_spec(c.stay_on_top));
    lemma_kv_line_parses(("audiosync")@, format_bool_spec(c.audiosync));
    lemma_kv_line_parses(("audiosync-calibration-ms")@, format_i32_spec(c.audiosync_calibration as int));
    lemma_kv_line_parses(("player-flags")@, c.mpv_flags);
    assert(free_of_key(seq![kv_line(("dark-mode")@, format_bool_spec(c.dark_mode)), kv_line(("stay-on-top")@, format_bool_spec(c.stay_on_top))], ("fullscreen")@)) by {
            assert(seq![kv_line(("dark-mode")@, format_bool_spec(c.dark_mode)), kv_line(("stay-on-top")@, format_bool_spec(c.stay_on_top))][0] == kv_line(("dark-mode")@, format_bool_spec(c.dark_mode)));
            assert(seq![kv_line(("dark-mode")@, format_bool_spec(c.dark_mode)), kv_line(("stay-on-top")@, format_bool_spec(c.stay_on_top))][1] == kv_line(("stay-on-top")@, format_bool_spec(c.stay_on_top)));
    }
    assert(free_of_key(api_lines(c.api), ("fullscreen")@)) by {
        match c.api {
            Some(a) => {
                lemma_kv_line_parses(("api")@, crate::api::api_name(a));
                assert(api_lines(c.api)[0] == kv_line(("api")@, crate::api::api_name(a)));
            },
            None => {
                assert(api_lines(c.api).len() == 0);
            },
        }
    }
    assert(free_of_key(player_lines(c.player), ("fullscreen")@)) by {
        match c.player {
            Some(a) => {
                lemma_kv_line_parses(("player")@, crate::player::player_name(a));
                assert(player_lines(c.player)[0] == kv_line(("player")@, crate::player::player_name(a)));
            },
            None => {
                assert(player_lines(c.player).len() == 0);
            },
        }
    }
    assert(free_of_key(seq![kv_line(("audiosync")@, format_bool_spec(c.audiosync)), kv_line(("audiosync-calibration-ms")@, format_i32_spec(c.audiosync_calibration as int)), kv_line(("player-flags")@, c.mpv_flags)], ("fullscreen")@)) by {
            assert(seq![kv_line(("audiosync")@, format_bool_spec(c.audiosync)), kv_line(("audiosync-calibration-ms")@, format_i32_spec(c.audiosync_calibration as int)), kv_line(("player-flags")@, c.mpv_flags)][0] == kv_line(("audiosync")@, format_bool_spec(c.audiosync)));
            assert(seq![kv_line(("audiosync")@, format_bool_spec(c.audiosync)), kv_line(("audiosync-calibration-ms")@, format_i32_spec(c.audiosync_calibration as int)), kv_line(("player-flags")@, c.mpv_flags)][1] == kv_line(("audiosync-calibration-ms")@, format_i32_spec(c.audiosync_calibration as int)));
            assert(seq![kv_line(("audiosync")@, format_bool_spec(c.audiosync)), kv_line(("audiosync-calibration-ms")@, format_i32_spec(c.audiosync_calibration as int)), kv_line(("player-flags")@, c.mpv_flags)][2] == kv_line(("player-flags")@, c.mpv_flags));
    }
    lemma_free_of_key_append(seq![kv_line(("dark-mode")@, format_bool_spec(c.dark_mode)), kv_line(("stay-on-top")@, format_bool_spec(c.stay_on_top))], api_lines(c.api), ("fullscreen")@);
    lemma_free_of_key_append(seq![kv_line(("dark-mode")@, format_bool_spec(c.dark_mode)), kv_line(("stay-on-top")@, format_bool_spec(c.stay_on_top))] + api_lines(c.api), player_lines(c.player), ("fullscreen")@);
    lemma_free_of_key_append(seq![kv_line(("dark-mode")@, format_bool_spec(c.dark_mode)), kv_line(("stay-on-top")@, format_bool_spec(c.stay_on_top))] + api_lines(c.api) + player_lines(c.player), seq![kv_line(("audiosync")@, format_bool_spec(c.audiosync)), kv_line(("audiosync-calibration-ms")@, format_i32_spec(c.audiosync_calibration as int)), kv_line(("player-flags")@, c.mpv_flags)], ("fullscreen")@);
    assert(free_of_headers(seq![kv_line(("debug")@, format_bool_spec(c.debug)), kv_line(("lyrics-enabled")@, format_bool_spec(c.lyrics))])) by {
            assert(seq![kv_line(("debug")@, format_bool_spec(c.debug)), kv_line(("lyrics-enabled")@, format_bool_spec(c.lyrics))][0] == kv_line(("debug")@, format_bool_spec(c.debug)));
            assert(kv_line(("debug")@, format_bool_spec(c.debug))[0] == (("debug")@)[0]);
            assert(seq![kv_line(("debug")@, format_bool_spec(c.debug)), kv_line(("lyrics-enabled")@, format_bool_spec(c.lyrics))][1] == kv_line(("lyrics-enabled")@, format_bool_spec(c.lyrics)));
            assert(kv_line(("lyrics-enabled")@, format_bool_spec(c.lyrics))[0] == (("lyrics-enabled")@)[0]);
    }
    lemma_last_entry_wins(
        seq![kv_line(("debug")@, format_bool_spec(c.debug)), kv_line(("lyrics-enabled")@, format_bool_spec(c.lyrics))],
        kv_line(("fullscreen")@, format_bool_spec(c.fullscreen)),
        seq![kv_line(("dark-mode")@, format_bool_spec(c.dark_mode)), kv_line(("stay-on-top")@, format_bool_spec(c.stay_on_top))] + api_lines(c.api) + player_lines(c.player) + seq![kv_line(("audiosync")@, format_bool_spec(c.audiosync)), kv_line(("audiosync-calibration-ms")@, format_i32_spec(c.audiosync_calibration as int)), kv_line(("player-flags")@, c.mpv_flags)],
        ("Defaults")@,
        ("fullscreen")@,
    );
    assert(defaults_body(c) =~= seq![kv_line(("debug")@, format_bool_spec(c.debug)), kv_line(("lyrics-enabled")@, format_bool_spec(c.lyrics))] + (seq![kv_line(("fullscreen")@, format_bool_spec(c.fullscreen))] + (seq![kv_line(("dark-mode")@, format_bool_spec(c.dark_mode)), kv_line(("stay-on-top")@, format_bool_spec(c.stay_on_top))] + api_lines(c.api) + player_lines(c.player) + seq![kv_line(("audiosync")@, format_bool_spec(c.audiosync)), kv_line(("audiosync-calibration-ms")@, format_i32_spec(c.audiosync_calibration as int)), kv_line(("player-flags")@, c.mpv_flags)])));
}

proof fn lemma_lookup_dark_mode(c: ConfigV)
    ensures
        ini_get(defaults_body(c), ("Defaults")@, ("Defaults")@, ("dark-mode")@) == Some(format_bool_spec(c.dark_mode)),
{
    reveal_strlit("debug");
    reveal_strlit("lyrics-enabled");
    reveal_strlit("fullscreen");
    reveal_strlit("dark-mode");
    reveal_strlit("stay-on-top");
    reveal_strlit("api");
    reveal_strlit("player");
    reveal_strlit("audiosync");
    reveal_strlit("audiosync-calibration-ms");
    reveal_strlit("player-flags");
    reveal_strlit("client-id");
    reveal_strlit("client-secret");
    reveal_strlit("redirect-uri");
    reveal_strlit("refresh-token");
    lemma_bodies_shape(c);
    lemma_kv_line_parses(("dark-mode")@, format_bool_spec(c.dark_mode));
    lemma_kv_line_parses(("stay-on-top")@, format_bool_spec(c.stay_on_top));
    lemma_kv_line_parses(("audiosync")@, format_bool_spec(c.audiosync));
    lemma_kv_line_parses(("audiosync-calibration-ms")@, format_i32_spec(c.audiosync_calibration as int));
    lemma_kv_line_parses(("player-flags")@, c.mpv_flags);
    assert(free_of_key(seq![kv_line(("stay-on-top")@, format_bool_spec(c.stay_on_top))], ("dark-mode")@)) by {
            assert(seq![kv_line(("stay-on-top")@, format_bool_spec(c.stay_on_top))][0] == kv_line(("stay-on-top")@, format_bool_spec(c.stay_on_top)));
    }
    assert(free_of_key(api_lines(c.api), ("dark-mode")@)) by {
        match c.api {
            Some(a) => {
                lemma_kv_line_parses(("api")@, crate::api::api_name(a));
                assert(api_lines(c.api)[0] == kv_line(("api")@, crate::api::api_name(a)));
            },
            None => {
                assert(api_lines(c.api).len() == 0);
            },
        }
    }
    assert(free_of_key(player_lines(c.player), ("dark-mode")@)) by {
        match c.player {
            Some(a) => {
                lemma_kv_line_parses(("player")@, crate::player::player_name(a));
                assert(player_lines(c.player)[0] == kv_line(("player")@, crate::player::player_name(a)));
            },
            None => {
                assert(player_lines(c.player).len() == 0);
            },
        }
    }
    assert(free_of_key(seq![kv_line(("audiosync")@, format_bool_spec(c.audiosync)), kv_line(("audiosync-calibration-ms")@, format_i32_spec(c.audiosync_calibration as int)), kv_line(("player-flags")@, c.mpv_flags)], ("dark-mode")@)) by {
            assert(seq![kv_line(("audiosync")@, format_bool_spec(c.audiosync)), kv_line(("audiosync-calibration-ms")@, format_i32_spec(c.audiosync_calibration as int)), kv_line(("player-flags")@, c.mpv_flags)][0] == kv_line(("audiosync")@, format_bool_spec(c.audiosync)));
            assert(seq![kv_line(("audiosync")@, format_bool_spec(c.audiosync)), kv_line(("audiosync-calibration-ms")@, format_i32_spec(c.audiosync_calibration as int)), kv_line(("player-flags")@, c.mpv_flags)][1] == kv_line(("audiosync-calibration-ms")@, format_i32_spec(c.audiosync_calibration as int)));
            assert(seq![kv_line(("audiosync")@, format_bool_spec(c.audiosync)), kv_line(("audiosync-calibration-ms")@, format_i32_spec(c.audiosync_calibration as int)), kv_line(("player-flags")@, c.mpv_flags)][2] == kv_line(("player-flags")@, c.mpv_flags));
    }
    lemma_free_of_key_append(seq![kv_line(("stay-on-top")@, format_bool_spec(c.stay_on_top))], api_lines(c.api), ("dark-mode")@);
    lemma_free_of_key_append(seq![kv_line(("stay-on-top")@, format_bool_spec(c.stay_on_top))] + api_lines(c.api), player_lines(c.player), ("dark-mode")@);
    lemma_free_of_key_append(seq![kv_line(("stay-on-top")@, format_bool_spec(c.stay_on_top))] + api_lines(c.api) + player_lines(c.player), seq![kv_line(("audiosync")@, format_bool_spec(c.audiosync)), kv_line(("audiosync-calibration-ms")@, format_i32_spec(c.audiosync_calibration as int)), kv_line(("player-flags")@, c.mpv_flags)], ("dark-mode")@);
    assert(free_of_headers(seq![kv_line(("debug")@, format_bool_spec(c.debug)), kv_line(("lyrics-enabled")@, format_bool_spec(c.lyrics)), kv_line(("fullscreen")@, format_bool_spec(c.fullscreen))])) by {
            assert(seq![kv_line(("debug")@, format_bool_spec(c.debug)), kv_line(("lyrics-enabled")@, format_bool_spec(c.lyrics)), kv_line(("fullscreen")@, format_bool_spec(c.fullscreen))][0] == kv_line(("debug")@, format_bool_spec(c.debug)));
            assert(kv_line(("debug")@, format_bool_spec(c.debug))[0] == (("debug")@)[0]);
            assert(seq![kv_line(("debug")@, format_bool_spec(c.debug)), kv_line(("lyrics-enabled")@, format_bool_spec(c.lyrics)), kv_line(("fullscreen")@, format_bool_spec(c.fullscreen))][1] == kv_line(("lyrics-enabled")@, format_bool_spec(c.lyrics)));
            assert(kv_line(("lyrics-enabled")@, format_bool_spec(c.lyrics))[0] == (("lyrics-enabled")@)[0]);
            assert(seq![kv_line(("debug")@, format_bool_spec(c.debug)), kv_line(("lyrics-enabled")@, format_bool_spec(c.lyrics)), kv_line(("fullscreen")@, format_bool_spec(c.fullscreen))][2] == kv_line(("fullscreen")@, format_bool_spec(c.fullscreen)));
            assert(kv_line(("fullscreen")@, format_bool_spec(c.fullscreen))[0] == (("fullscreen")@)[0]);
    }
    lemma_last_entry_wins(
        seq![kv_line(("debug")@, format_bool_spec(c.debug)), kv_line(("lyrics-enabled")@, format_bool_spec(c.lyrics)), kv_line(("fullscreen")@, format_bool_spec(c.fullscreen))],
        kv_line(("dark-mode")@, format_bool_spec(c.dark_mode)),
        seq![kv_line(("stay-on-top")@, format_bool_spec(c.stay_on_top))] + api_lines(c.api) + player_lines(c.player) + seq![kv_line(("audiosync")@, format_bool_spec(c.audiosync)), kv_line(("audiosync-calibration-ms")@, format_i32_spec(c.audiosync_calibration as int)), kv_line(("player-flags")@, c.mpv_flags)],
        ("Defaults")@,
        ("dark-mode")@,
    );
    assert(defaults_body(c) =~= seq![kv_line(("debug")@, format_bool_spec(c.debug)), kv_line(("lyrics-enabled")@, format_bool_spec(c.lyrics)), kv_line(("fullscreen")@, format_bool_spec(c.fullscreen))] + (seq![kv_line(("dark-mode")@, format_bool_spec(c.dark_mode))] + (seq![kv_line(("stay-on-top")@, format_bool_spec(c.stay_on_top))] + api_lines(c.api) + player_lines(c.player) + seq![kv_line(("audiosync")@, format_bool_spec(c.audiosync)), kv_line(("audiosync-calibration-ms")@, format_i32_spec(c.audiosync_calibration as int)), kv_line(("player-flags")@, c.mpv_flags)])));
}

proof fn lemma_lookup_stay_on_top(c: ConfigV)
    ensures
        ini_get(defaults_body(c), ("Defaults")@, ("Defaults")@, ("stay-on-top")@) == Some(format_bool_spec(c.stay_on_top)),
{
    reveal_strlit("debug");
    reveal_strlit("lyrics-enabled");
    reveal_strlit("fullscreen");
    reveal_strlit("dark-mode");
    reveal_strlit("stay-on-top");
    reveal_strlit("api");
    reveal_strlit("player");
    reveal_strlit("audiosync");
    reveal_strlit("audiosync-calibration-ms");
    reveal_strlit("player-flags");
    reveal_strlit("client-id");
    reveal_strlit("client-secret");
    reveal_strlit("redirect-uri");
    reveal_strlit("refresh-token");
    lemma_bodies_shape(c);
    lemma_kv_line_parses(("stay-on-top")@, format_bool_spec(c.stay_on_top));
    lemma_kv_line_parses(("audiosync")@, format_bool_spec(c.audiosync));
    lemma_kv_line_parses(("audiosync-calibration-ms")@, format_i32_spec(c.audiosync_calibration as int));
    lemma_kv_line_parses(("player-flags")@, c.mpv_flags);
    assert(free_of_key(api_lines(c.api), ("stay-on-top")@)) by {
        match c.api {
            Some(a) => {
                lemma_kv_line_parses(("api")@, crate::api::api_name(a));
                assert(api_lines(c.api)[0] == kv_line(("api")@, crate::api::api_name(a)));
            },
            None => {
                assert(api_lines(c.api).len() == 0);
            },
        }
    }
    assert(free_of_key(player_lines(c.player), ("stay-on-top")@)) by {
        match c.player {
            Some(a) => {
                lemma_kv_line_parses(("player")@, crate::player::player_name(a));
                assert(player_lines(c.player)[0] == kv_line(("player")@, crate::player::player_name(a)));
            },
            None => {
                assert(player_lines(c.player).len() == 0);
            },
        }
    }
    assert(free_of_key(seq![kv_line(("audiosync")@, format_bool_spec(c.audiosync)), kv_line(("audiosync-calibration-ms")@, format_i32_spec(c.audiosync_calibration as int)), kv_line(("player-flags")@, c.mpv_flags)], ("stay-on-top")@)) by {
            assert(seq![kv_line(("audiosync")@, format_bool_spec(c.audiosync)), kv_line(("audiosync-calibration-ms")@, format_i32_spec(c.audiosync_calibration as int)), kv_line(("player-flags")@, c.mpv_flags)][0] == kv_line(("audiosync")@, format_bool_spec(c.audiosync)));
            assert(seq![kv_line(("audiosync")@, format_bool_spec(c.audiosync)), kv_line(("audiosync-calibration-ms")@, format_i32_spec(c.audiosync_calibration as int)), kv_line(("player-flags")@, c.mpv_flags)][1] == kv_line(("audiosync-calibration-ms")@, format_i32_spec(c.audiosync_calibration as int)));
            assert(seq![kv_line(("audiosync")@, format_bool_spec(c.audiosync)), kv_line(("audiosync-calibration-ms")@, format_i32_spec(c.audiosync_calibration as int)), kv_line(("player-flags")@, c.mpv_flags)][2] == kv_line(("player-flags")@, c.mpv_flags));
    }
    lemma_free_of_key_append(api_lines(c.api), player_lines(c.player), ("stay-on-top")@);
    lemma_free_of_key_append(api_lines(c.api) + player_lines(c.player), seq![kv_line(("audiosync")@, format_bool_spec(c.audiosync)), kv_line(("audiosync-calibration-ms")@, format_i32_spec(c.audiosync_calibration as int)), kv_line(("player-flags")@, c.mpv_flags)], ("stay-on-top")@);
    assert(free_of_headers(seq![kv_line(("debug")@, format_bool_spec(c.debug)), kv_line(("lyrics-enabled")@, format_bool_spec(c.lyrics)), kv_line(("fullscreen")@, format_bool_spec(c.fullscreen)), kv_line(("dark-mode")@, format_bool_spec(c.dark_mode))])) by {
            assert(seq![kv_line(("debug")@, format_bool_spec(c.debug)), kv_line(("lyrics-enabled")@, format_bool_spec(c.lyrics)), kv_line(("fullscreen")@, format_bool_spec(c.fullscreen)), kv_line(("dark-mode")@, format_bool_spec(c.dark_mode))][0] == kv_line(("debug")@, format_bool_spec(c.debug)));
            assert(kv_line(("debug")@, format_bool_spec(c.debug))[0] == (("debug")@)[0]);
            assert(seq![kv_line(("debug")@, format_bool_spec(c.debug)), kv_line(("lyrics-enabled")@, format_bool_spec(c.lyrics)), kv_line(("fullscreen")@, format_bool_spec(c.fullscreen)), kv_line(("dark-mode")@, format_bool_spec(c.dark_mode))][1] == kv_line(("lyrics-enabled")@, format_bool_spec(c.lyrics)));
            assert(kv_line(("lyrics-enabled")@, format_bool_spec(c.lyrics))[0] == (("lyrics-enabled")@)[0]);
            assert(seq![kv_line(("debug")@, format_bool_spec(c.debug)), kv_line(("lyrics-enabled")@, format_bool_spec(c.lyrics)), kv_line(("fullscreen")@, format_bool_spec(c.fullscreen)), kv_line(("dark-mode")@, format_bool_spec(c.dark_mode))][2] == kv_line(("fullscreen")@, format_bool_spec(c.fullscreen)));
            assert(kv_line(("fullscreen")@, format_bool_spec(c.fullscreen))[0] == (("fullscreen")@)[0]);
            assert(seq![kv_line(("debug")@, format_bool_spec(c.debug)), kv_line(("lyrics-enabled")@, format_bool_spec(c.lyrics)), kv_line(("fullscreen")@, format_bool_spec(c.fullscreen)), kv_line(("dark-mode")@, format_bool_spec(c.dark_mode))][3] == kv_line(("dark-mode")@, format_bool_spec(c.dark_mode)));
            assert(kv_line(("dark-mode")@, format_bool_spec(c.dark_mode))[0] == (("dark-mode")@)[0]);
    }
    lemma_last_entry_wins(
        seq![kv_line(("debug")@, format_bool_spec(c.debug)), kv_line(("lyrics-enabled")@, format_bool_spec(c.lyrics)), kv_line(("fullscreen")@, format_bool_spec(c.fullscreen)), kv_line(("dark-mode")@, format_bool_spec(c.dark_mode))],
        kv_line(("stay-on-top")@, format_bool_spec(c.stay_on_top)),
        api_lines(c.api) + player_lines(c.player) + seq![kv_line(("audiosync")@, format_bool_spec(c.audiosync)), kv_line(("audiosync-calibration-ms")@, format_i32_spec(c.audiosync_calibration as int)), kv_line(("player-flags")@, c.mpv_flags)],
        ("Defaults")@,
        ("stay-on-top")@,
    );
    assert(defaults_body(c) =~= seq![kv_line(("debug")@, format_bool_spec(c.debug)), kv_line(("lyrics-enabled")@, format_bool_spec(c.lyrics)), kv_line(("fullscreen")@, format_bool_spec(c.fullscreen)), kv_line(("dark-mode")@, format_bool_spec(c.dark_mode))] + (seq![kv_line(("stay-on-top")@, format_bool_spec(c.stay_on_top))] + (api_lines(c.api) + player_lines(c.player) + seq![kv_line(("audiosync")@, format_bool_spec(c.audiosync)), kv_line(("audiosync-calibration-ms")@, format_i32_spec(c.audiosync_calibration as int)), kv_line(("player-flags")@, c.mpv_flags)])));
}

proof fn lemma_lookup_audiosync(c: ConfigV)
    ensures
        ini_get(defaults_body(c), ("Defaults")@, ("Defaults")@, ("audiosync")@) == Some(format_bool_spec(c.audiosync)),
{
    reveal_strlit("debug");
    reveal_strlit("lyrics-enabled");
    reveal_strlit("fullscreen");
    reveal_strlit("dark-mode");
    reveal_strlit("stay-on-top");
    reveal_strlit("api");
    reveal_strlit("player");
    reveal_strlit("audiosync");
    reveal_strlit("audiosync-calibration-ms");
    reveal_strlit("player-flags");
    reveal_strlit("client-id");
    reveal_strlit("client-secret");
    reveal_strlit("redirect-uri");
    reveal_strlit("refresh-token");
    lemma_bodies_shape(c);
    lemma_kv_line_parses(("audiosync")@, format_bool_spec(c.audiosync));
    lemma_kv_line_parses(("audiosync-calibration-ms")@, format_i32_spec(c.audiosync_calibration as int));
    lemma_kv_line_parses(("player-flags")@, c.mpv_flags);
    assert(free_of_key(seq![kv_line(("audiosync-calibration-ms")@, format_i32_spec(c.audiosync_calibration as int)), kv_line(("player-flags")@, c.mpv_flags)], ("audiosync")@)) by {
            assert(seq![kv_line(("audiosync-calibration-ms")@, format_i32_spec(c.audiosync_calibration as int)), kv_line(("player-flags")@, c.mpv_flags)][0] == kv_line(("audiosync-calibration-ms")@, format_i32_spec(c.audiosync_calibration as int)));
            assert(seq![kv_line(("audiosync-calibration-ms")@, format_i32_spec(c.audiosync_calibration as int)), kv_line(("player-flags")@, c.mpv_flags)][1] == kv_line(("player-flags")@, c.mpv_flags));
    }
    assert(free_of_headers(seq![kv_line(("debug")@, format_bool_spec(c.debug)), kv_line(("lyrics-enabled")@, format_bool_spec(c.lyrics)), kv_line(("fullscreen")@, format_bool_spec(c.fullscreen)), kv_line(("dark-mode")@, format_bool_spec(c.dark_mode)), kv_line(("stay-on-top")@, format_bool_spec(c.stay_on_top))])) by {
            assert(seq![kv_line(("debug")@, format_bool_spec(c.debug)), kv_line(("lyrics-enabled")@, format_bool_spec(c.lyrics)), kv_line(("fullscreen")@, format_bool_spec(c.fullscreen)), kv_line(("dark-mode")@, format_bool_spec(c.dark_mode)), kv_line(("stay-on-top")@, format_bool_spec(c.stay_on_top))][0] == kv_line(("debug")@, format_bool_spec(c.debug)));
            assert(kv_line(("debug")@, format_bool_spec(c.debug))[0] == (("debug")@)[0]);
            assert(seq![kv_line(("debug")@, format_bool_spec(c.debug)), kv_line(("lyrics-enabled")@, format_bool_spec(c.lyrics)), kv_line(("fullscreen")@, format_bool_spec(c.fullscreen)), kv_line(("dark-mode")@, format_bool_spec(c.dark_mode)), kv_line(("stay-on-top")@, format_bool_spec(c.stay_on_top))][1] == kv_line(("lyrics-enabled")@, format_bool_spec(c.lyrics)));
            assert(kv_line(("lyrics-enabled")@, format_bool_spec(c.lyrics))[0] == (("lyrics-enabled")@)[0]);
            assert(seq![kv_line(("debug")@, format_bool_spec(c.debug)), kv_line(("lyrics-enabled")@, format_bool_spec(c.lyrics)), kv_line(("fullscreen")@, format_bool_spec(c.fullscreen)), kv_line(("dark-mode")@, format_bool_spec(c.dark_mode)), kv_line(("stay-on-top")@, format_bool_spec(c.stay_on_top))][2] == kv_line(("fullscreen")@, format_bool_spec(c.fullscreen)));
            assert(kv_line(("fullscreen")@, format_bool_spec(c.fullscreen))[0] == (("fullscreen")@)[0]);
            assert(seq![kv_line(("debug")@, format_bool_spec(c.debug)), kv_line(("lyrics-enabled")@, format_bool_spec(c.lyrics)), kv_line(("fullscreen")@, format_bool_spec(c.fullscreen)), kv_line(("dark-mode")@, format_bool_spec(c.dark_mode)), kv_line(("stay-on-top")@, format_bool_spec(c.stay_on_top))][3] == kv_line(("dark-mode")@, format_bool_spec(c.dark_mode)));
            assert(kv_line(("dark-mode")@, format_bool_spec(c.dark_mode))[0] == (("dark-mode")@)[0]);
            assert(seq![kv_line(("debug")@, format_bool_spec(c.debug)), kv_line(("lyrics-enabled")@, format_bool_spec(c.lyrics)), kv_line(("fullscreen")@, format_bool_spec(c.fullscreen)), kv_line(("dark-mode")@, format_bool_spec(c.dark_mode)), kv_line(("stay-on-top")@, format_bool_spec(c.stay_on_top))][4] == kv_line(("stay-on-top")@, format_bool_spec(c.stay_on_top)));
            assert(kv_line(("stay-on-top")@, format_bool_spec(c.stay_on_top))[0] == (("stay-on-top")@)[0]);
    }
    assert(free_of_headers(api_lines(c.api))) by {
        match c.api {
            Some(a) => {
                assert(api_lines(c.api)[0] == kv_line(("api")@, crate::api::api_name(a)));
                assert(kv_line(("api")@, crate::api::api_name(a))[0] == (("api")@)[0]);
            },
            None => {
                assert(api_lines(c.api).len() == 0);
            },
        }
    }
    assert(free_of_headers(player_lines(c.player))) by {
        match c.player {
            Some(a) => {
                assert(player_lines(c.player)[0] == kv_line(("player")@, crate::player::player_name(a)));
                assert(kv_line(("player")@, crate::player::player_name(a))[0] == (("player")@)[0]);
            },
            None => {
                assert(player_lines(c.player).len() == 0);
            },
        }
    }
    lemma_free_of_headers_append(seq![kv_line(("debug")@, format_bool_spec(c.debug)), kv_line(("lyrics-enabled")@, format_bool_spec(c.lyrics)), kv_line(("fullscreen")@, format_bool_spec(c.fullscreen)), kv_line(("dark-mode")@, format_bool_spec(c.dark_mode)), kv_line(("stay-on-top")@, format_bool_spec(c.stay_on_top))], api_lines(c.api));
    lemma_free_of_headers_append(seq![kv_line(("debug")@, format_bool_spec(c.debug)), kv_line(("lyrics-enabled")@, format_bool_spec(c.lyrics)), kv_line(("fullscreen")@, format_bool_spec(c.fullscreen)), kv_line(("dark-mode")@, format_bool_spec(c.dark_mode)), kv_line(("stay-on-top")@, format_bool_spec(c.stay_on_top))] + api_lines(c.api), player_lines(c.player));
    lemma_last_entry_wins(
        seq![kv_line(("debug")@, format_bool_spec(c.debug)), kv_line(("lyrics-enabled")@, format_bool_spec(c.lyrics)), kv_line(("fullscreen")@, format_bool_spec(c.fullscreen)), kv_line(("dark-mode")@, format_bool_spec(c.dark_mode)), kv_line(("stay-on-top")@, format_bool_spec(c.stay_on_top))] + api_lines(c.api) + player_lines(c.player),
        kv_line(("audiosync")@, format_bool_spec(c.audiosync)),
        seq![kv_line(("audiosync-calibration-ms")@, format_i32_spec(c.audiosync_calibration as int)), kv_line(("player-flags")@, c.mpv_flags)],
        ("Defaults")@,
        ("audiosync")@,
    );
    assert(defaults_body(c) =~= seq![kv_line(("debug")@, format_bool_spec(c.debug)), kv_line(("lyrics-enabled")@, format_bool_spec(c.lyrics)), kv_line(("fullscreen")@, format_bool_spec(c.fullscreen)), kv_line(("dark-mode")@, format_bool_spec(c.dark_mode)), kv_line(("stay-on-top")@, format_bool_spec(c.stay_on_top))] + api_lines(c.api) + player_lines(c.player) + (seq![kv_line(("audiosync")@, format_bool_spec(c.audiosync))] + (seq![kv_line(("audiosync-calibration-ms")@, format_i32_spec(c.audiosync_calibration as int)), kv_line(("player-flags")@, c.mpv_flags)])));
}

proof fn lemma_lookup_audiosync_calibration_ms(c: ConfigV)
    ensures
        ini_get(defaults_body(c), ("Defaults")@, ("Defaults")@, ("audiosync-calibration-ms")@) == Some(format_i32_spec(c.audiosync_calibration as int)),
{
    reveal_strlit("debug");
    reveal_strlit("lyrics-enabled");
    reveal_strlit("fullscreen");
    reveal_strlit("dark-mode");
    reveal_strlit("stay-on-top");
    reveal_strlit("api");
    reveal_strlit("player");
    reveal_strlit("audiosync");
    reveal_strlit("audiosync-calibration-ms");
    reveal_strlit("player-flags");
    reveal_strlit("client-id");
    reveal_strlit("client-secret");
    reveal_strlit("redirect-uri");
    reveal_strlit("refresh-token");
    lemma_bodies_shape(c);
    lemma_kv_line_parses(("audiosync-calibration-ms")@, format_i32_spec(c.audiosync_calibration as int));
    lemma_kv_line_parses(("player-flags")@, c.mpv_flags);
    assert(free_of_key(seq![kv_line(("player-flags")@, c.mpv_flags)], ("audiosync-calibration-ms")@)) by {
            assert(seq![kv_line(("player-flags")@, c.mpv_flags)][0] == kv_line(("player-flags")@, c.mpv_flags));
    }
    assert(free_of_headers(seq![kv_line(("debug")@, format_bool_spec(c.debug)), kv_line(("lyrics-enabled")@, format_bool_spec(c.lyrics)), kv_line(("fullscreen")@, format_bool_spec(c.fullscreen)), kv_line(("dark-mode")@, format_bool_spec(c.dark_mode)), kv_line(("stay-on-top")@, format_bool_spec(c.stay_on_top))])) by {
            assert(seq![kv_line(("debug")@, format_bool_spec(c.debug)), kv_line(("lyrics-enabled")@, format_bool_spec(c.lyrics)), kv_line(("fullscreen")@, format_bool_spec(c.fullscreen)), kv_line(("dark-mode")@, format_bool_spec(c.dark_mode)), kv_line(("stay-on-top")@, format_bool_spec(c.stay_on_top))][0] == kv_line(("debug")@, format_bool_spec(c.debug)));
            assert(kv_line(("debug")@, format_bool_spec(c.debug))[0] == (("debug")@)[0]);
            assert(seq![kv_line(("debug")@, format_bool_spec(c.debug)), kv_line(("lyrics-enabled")@, format_bool_spec(c.lyrics)), kv_line(("fullscreen")@, format_bool_spec(c.fullscreen)), kv_line(("dark-mode")@, format_bool_spec(c.dark_mode)), kv_line(("stay-on-top")@, format_bool_spec(c.stay_on_top))][1] == kv_line(("lyrics-enabled")@, format_bool_spec(c.lyrics)));
            assert(kv_line(("lyrics-enabled")@, format_bool_spec(c.lyrics))[0] == (("lyrics-enabled")@)[0]);
            assert(seq![kv_line(("debug")@, format_bool_spec(c.debug)), kv_line(("lyrics-enabled")@, format_bool_spec(c.lyrics)), kv_line(("fullscreen")@, format_bool_spec(c.fullscreen)), kv_line(("dark-mode")@, format_bool_spec(c.dark_mode)), kv_line(("stay-on-top")@, format_bool_spec(c.stay_on_top))][2] == kv_line(("fullscreen")@, format_bool_spec(c.fullscreen)));
            assert(kv_line(("fullscreen")@, format_bool_spec(c.fullscreen))[0] == (("fullscreen")@)[0]);
            assert(seq![kv_line(("debug")@, format_bool_spec(c.debug)), kv_line(("lyrics-enabled")@, format_bool_spec(c.lyrics)), kv_line(("fullscreen")@, format_bool_spec(c.fullscreen)), kv_line(("dark-mode")@, format_bool_spec(c.dark_mode)), kv_line(("stay-on-top")@, format_bool_spec(c.stay_on_top))][3] == kv_line(("dark-mode")@, format_bool_spec(c.dark_mode)));
            assert(kv_line(("dark-mode")@, format_bool_spec(c.dark_mode))[0] == (("dark-mode")@)[0]);
            assert(seq![kv_line(("debug")@, format_bool_spec(c.debug)), kv_line(("lyrics-enabled")@, format_bool_spec(c.lyrics)), kv_line(("fullscreen")@, format_bool_spec(c.fullscreen)), kv_line(("dark-mode")@, format_bool_spec(c.dark_mode)), kv_line(("stay-on-top")@, format_bool_spec(c.stay_on_top))][4] == kv_line(("stay-on-top")@, format_bool_spec(c.stay_on_top)));
            assert(kv_line(("stay-on-top")@, format_bool_spec(c.stay_on_top))[0] == (("stay-on-top")@)[0]);
    }
    assert(free_of_headers(api_lines(c.api))) by {
        match c.api {
            Some(a) => {
                assert(api_lines(c.api)[0] == kv_line(("api")@, crate::api::api_name(a)));
                assert(kv_line(("api")@, crate::api::api_name(a))[0] == (("api")@)[0]);
            },
            None => {
                assert(api_lines(c.api).len() == 0);
            },
        }
    }
    assert(free_of_headers(player_lines(c.player))) by {
        match c.player {
            Some(a) => {
                assert(player_lines(c.player)[0] == kv_line(("player")@, crate::player::player_name(a)));
                assert(kv_line(("player")@, crate::player::player_name(a))[0] == (("player")@)[0]);
            },
            None => {
                assert(player_lines(c.player).len() == 0);
            },
        }
    }
    assert(free_of_headers(seq![kv_line(("audiosync")@, format_bool_spec(c.audiosync))])) by {
            assert(seq![kv_line(("audiosync")@, format_bool_spec(c.audiosync))][0] == kv_line(("audiosync")@, format_bool_spec(c.audiosync)));
            assert(kv_line(("audiosync")@, format_bool_spec(c.audiosync))[0] == (("audiosync")@)[0]);
    }
    lemma_free_of_headers_append(seq![kv_line(("debug")@, format_bool_spec(c.debug)), kv_line(("lyrics-enabled")@, format_bool_spec(c.lyrics)), kv_line(("fullscreen")@, format_bool_spec(c.fullscreen)), kv_line(("dark-mode")@, format_bool_spec(c.dark_mode)), kv_line(("stay-on-top")@, format_bool_spec(c.stay_on_top))], api_lines(c.api));
    lemma_free_of_headers_append(seq![kv_line(("debug")@, format_bool_spec(c.debug)), kv_line(("lyrics-enabled")@, format_bool_spec(c.lyrics)), kv_line(("fullscreen")@, format_bool_spec(c.fullscreen)), kv_line(("dark-mode")@, format_bool_spec(c.dark_mode)), kv_line(("stay-on-top")@, format_bool_spec(c.stay_on_top))] + api_lines(c.api), player_lines(c.player));
    lemma_free_of_headers_append(seq![kv_line(("debug")@, format_bool_spec(c.debug)), kv_line(("lyrics-enabled")@, format_bool_spec(c.lyrics)), kv_line(("fullscreen")@, format_bool_spec(c.fullscreen)), kv_line(("dark-mode")@, format_bool_spec(c.dark_mode)), kv_line(("stay-on-top")@, format_bool_spec(c.stay_on_top))] + api_lines(c.api) + player_lines(c.player), seq![kv_line(("audiosync")@, format_bool_spec(c.audiosync))]);
    lemma_last_entry_wins(
        seq![kv_line(("debug")@, format_bool_spec(c.debug)), kv_line(("lyrics-enabled")@, format_bool_spec(c.lyrics)), kv_line(("fullscreen")@, format_bool_spec(c.fullscreen)), kv_line(("dark-mode")@, format_bool_spec(c.dark_mode)), kv_line(("stay-on-top")@, format_bool_spec(c.stay_on_top))] + api_lines(c.api) + player_lines(c.player) + seq![kv_line(("audiosync")@, format_bool_spec(c.audiosync))],
        kv_line(("audiosync-calibration-ms")@, format_i32_spec(c.audiosync_calibration as int)),
        seq![kv_line(("player-flags")@, c.mpv_flags)],
        ("Defaults")@,
        ("audiosync-calibration-ms")@,
    );
    assert(defaults_body(c) =~= seq![kv_line(("debug")@, format_bool_spec(c.debug)), kv_line(("lyrics-enabled")@, format_bool_spec(c.lyrics)), kv_line(("fullscreen")@, format_bool_spec(c.fullscreen)), kv_line(("dark-mode")@, format_bool_spec(c.dark_mode)), kv_line(("stay-on-top")@, format_bool_spec(c.stay_on_top))] + api_lines(c.api) + player_lines(c.player) + seq![kv_line(("audiosync")@, format_bool_spec(c.audiosync))] + (seq![kv_line(("audiosync-calibration-ms")@, format_i32_spec(c.audiosync_calibration as int))] + (seq![kv_line(("player-flags")@, c.mpv_flags)])));
}

proof fn lemma_lookup_player_flags(c: ConfigV)
    ensures
        ini_get(defaults_body(c), ("Defaults")@, ("Defaults")@, ("player-flags")@) == Some(c.mpv_flags),
{
    reveal_strlit("debug");
    reveal_strlit("lyrics-enabled");
    reveal_strlit("fullscreen");
    reveal_strlit("dark-mode");
    reveal_strlit("stay-on-top");
    reveal_strlit("api");
    reveal_strlit("player");
    reveal_strlit("audiosync");
    reveal_strlit("audiosync-calibration-ms");
    reveal_strlit("player-flags");
    reveal_strlit("client-id");
    reveal_strlit("client-secret");
    reveal_strlit("redirect-uri");
    reveal_strlit("refresh-token");
    lemma_bodies_shape(c);
    lemma_kv_line_parses(("player-flags")@, c.mpv_flags);
    assert(free_of_key(Seq::<Seq<char>>::empty(), ("player-flags")@));
    assert(free_of_headers(seq![kv_line(("debug")@, format_bool_spec(c.debug)), kv_line(("lyrics-enabled")@, format_bool_spec(c.lyrics)), kv_line(("fullscreen")@, format_bool_spec(c.fullscreen)), kv_line(("dark-mode")@, format_bool_spec(c.dark_mode)), kv_line(("stay-on-top")@, format_bool_spec(c.stay_on_top))])) by {
            assert(seq![kv_line(("debug")@, format_bool_spec(c.debug)), kv_line(("lyrics-enabled")@, format_bool_spec(c.lyrics)), kv_line(("fullscreen")@, format_bool_spec(c.fullscreen)), kv_line(("dark-mode")@, format_bool_spec(c.dark_mode)), kv_line(("stay-on-top")@, format_bool_spec(c.stay_on_top))][0] == kv_line(("debug")@, format_bool_spec(c.debug)));
            assert(kv_line(("debug")@, format_bool_spec(c.debug))[0] == (("debug")@)[0]);
            assert(seq![kv_line(("debug")@, format_bool_spec(c.debug)), kv_line(("lyrics-enabled")@, format_bool_spec(c.lyrics)), kv_line(("fullscreen")@, format_bool_spec(c.fullscreen)), kv_line(("dark-mode")@, format_bool_spec(c.dark_mode)), kv_line(("stay-on-top")@, format_bool_spec(c.stay_on_top))][1] == kv_line(("lyrics-enabled")@, format_bool_spec(c.lyrics)));
            assert(kv_line(("lyrics-enabled")@, format_bool_spec(c.lyrics))[0] == (("lyrics-enabled")@)[0]);
            assert(seq![kv_line(("debug")@, format_bool_spec(c.debug)), kv_line(("lyrics-enabled")@, format_bool_spec(c.lyrics)), kv_line(("fullscreen")@, format_bool_spec(c.fullscreen)), kv_line(("dark-mode")@, format_bool_spec(c.dark_mode)), kv_line(("stay-on-top")@, format_bool_spec(c.stay_on_top))][2] == kv_line(("fullscreen")@, format_bool_spec(c.fullscreen)));
            assert(kv_line(("fullscreen")@, format_bool_spec(c.fullscreen))[0] == (("fullscreen")@)[0]);
            assert(seq![kv_line(("debug")@, format_bool_spec(c.debug)), kv_line(("lyrics-enabled")@, format_bool_spec(c.lyrics)), kv_line(("fullscreen")@, format_bool_spec(c.fullscreen)), kv_line(("dark-mode")@, format_bool_spec(c.dark_mode)), kv_line(("stay-on-top")@, format_bool_spec(c.stay_on_top))][3] == kv_line(("dark-mode")@, format_bool_spec(c.dark_mode)));
            assert(kv_line(("dark-mode")@, format_bool_spec(c.dark_mode))[0] == (("dark-mode")@)[0]);
            assert(seq![kv_line(("debug")@, format_bool_spec(c.debug)), kv_line(("lyrics-enabled")@, format_bool_spec(c.lyrics)), kv_line(("fullscreen")@, format_bool_spec(c.fullscreen)), kv_line(("dark-mode")@, format_bool_spec(c.dark_mode)), kv_line(("stay-on-top")@, format_bool_spec(c.stay_on_top))][4] == kv_line(("stay-on-top")@, format_bool_spec(c.stay_on_top)));
            assert(kv_line(("stay-on-top")@, format_bool_spec(c.stay_on_top))[0] == (("stay-on-top")@)[0]);
    }
    assert(free_of_headers(api_lines(c.api))) by {
        match c.api {
            Some(a) => {
                assert(api_lines(c.api)[0] == kv_line(("api")@, crate::api::api_name(a)));
                assert(kv_line(("api")@, crate::api::api_name(a))[0] == (("api")@)[0]);
            },
            None => {
                assert(api_lines(c.api).len() == 0);
            },
        }
    }
    assert(free_of_headers(player_lines(c.player))) by {
        match c.player {
            Some(a) => {
                assert(player_lines(c.player)[0] == kv_line(("player")@, crate::player::player_name(a)));
                assert(kv_line(("player")@, crate::player::player_name(a))[0] == (("player")@)[0]);
            },
            None => {
                assert(player_lines(c.player).len() == 0);
            },
        }
    }
    assert(free_of_headers(seq![kv_line(("audiosync")@, format_bool_spec(c.audiosync)), kv_line(("audiosync-calibration-ms")@, format_i32_spec(c.audiosync_calibration as int))])) by {
            assert(seq![kv_line(("audiosync")@, format_bool_spec(c.audiosync)), kv_line(("audiosync-calibration-ms")@, format_i32_spec(c.audiosync_calibration as int))][0] == kv_line(("audiosync")@, format_bool_spec(c.audiosync)));
            assert(kv_line(("audiosync")@, format_bool_spec(c.audiosync))[0] == (("audiosync")@)[0]);
            assert(seq![kv_line(("audiosync")@, format_bool_spec(c.audiosync)), kv_line(("audiosync-calibration-ms")@, format_i32_spec(c.audiosync_calibration as int))][1] == kv_line(("audiosync-calibration-ms")@, format_i32_spec(c.audiosync_calibration as int)));
            assert(kv_line(("audiosync-calibration-ms")@, format_i32_spec(c.audiosync_calibration as int))[0] == (("audiosync-calibration-ms")@)[0]);
    }
    lemma_free_of_headers_append(seq![kv_line(("debug")@, format_bool_spec(c.debug)), kv_line(("lyrics-enabled")@, format_bool_spec(c.lyrics)), kv_line(("fullscreen")@, format_bool_spec(c.fullscreen)), kv_line(("dark-mode")@, format_bool_spec(c.dark_mode)), kv_line(("stay-on-top")@, format_bool_spec(c.stay_on_top))], api_lines(c.api));
    lemma_free_of_headers_append(seq![kv_line(("debug")@, format_bool_spec(c.debug)), kv_line(("lyrics-enabled")@, format_bool_spec(c.lyrics)), kv_line(("fullscreen")@, format_bool_spec(c.fullscreen)), kv_line(("dark-mode")@, format_bool_spec(c.dark_mode)), kv_line(("stay-on-top")@, format_bool_spec(c.stay_on_top))] + api_lines(c.api), player_lines(c.player));
    lemma_free_of_headers_append(seq![kv_line(("debug")@, format_bool_spec(c.debug)), kv_line(("lyrics-enabled")@, format_bool_spec(c.lyrics)), kv_line(("fullscreen")@, format_bool_spec(c.fullscreen)), kv_line(("dark-mode")@, format_bool_spec(c.dark_mode)), kv_line(("stay-on-top")@, format_bool_spec(c.stay_on_top))] + api_lines(c.api) + player_lines(c.player), seq![kv_line(("audiosync")@, format_bool_spec(c.audiosync)), kv_line(("audiosync-calibration-ms")@, format_i32_spec(c.audiosync_calibration as int))]);
    lemma_last_entry_wins(
        seq![kv_line(("debug")@, format_bool_spec(c.debug)), kv_line(("lyrics-enabled")@, format_bool_spec(c.lyrics)), kv_line(("fullscreen")@, format_bool_spec(c.fullscreen)), kv_line(("dark-mode")@, format_bool_spec(c.dark_mode)), kv_line(("stay-on-top")@, format_bool_spec(c.stay_on_top))] + api_lines(c.api) + player_lines(c.player) + seq![kv_line(("audiosync")@, format_bool_spec(c.audiosync)), kv_line(("audiosync-calibration-ms")@, format_i32_spec(c.audiosync_calibration as int))],
        kv_line(("player-flags")@, c.mpv_flags),
        Seq::<Seq<char>>::empty(),
        ("Defaults")@,
        ("player-flags")@,
    );
    assert(defaults_body(c) =~= seq![kv_line(("debug")@, format_bool_spec(c.debug)), kv_line(("lyrics-enabled")@, format_bool_spec(c.lyrics)), kv_line(("fullscreen")@, format_bool_spec(c.fullscreen)), kv_line(("dark-mode")@, format_bool_spec(c.dark_mode)), kv_line(("stay-on-top")@, format_bool_spec(c.stay_on_top))] + api_lines(c.api) + player_lines(c.player) + seq![kv_line(("audiosync")@, format_bool_spec(c.audiosync)), kv_line(("audiosync-calibration-ms")@, format_i32_spec(c.audiosync_calibration as int))] + (seq![kv_line(("player-flags")@, c.mpv_flags)] + (Seq::<Seq<char>>::empty())));
}

proof fn lemma_lookup_redirect_uri(c: ConfigV)
    ensures
        ini_get(web_body(c), ("SpotifyWeb")@, ("SpotifyWeb")@, ("redirect-uri")@) == Some(c.redirect_uri),
{
    reveal_strlit("client-id");
    reveal_strlit("client-secret");
    reveal_strlit("redirect-uri");
    reveal_strlit("refresh-token");
    lemma_kv_line_parses(("redirect-uri")@, c.redirect_uri);
    assert(free_of_key(opt_kv_lines(("refresh-token")@, c.refresh_token), ("redirect-uri")@)) by {
        match c.refresh_token {
            Some(a) => {
                lemma_kv_line_parses(("refresh-token")@, a);
                assert(opt_kv_lines(("refresh-token")@, c.refresh_token)[0] == kv_line(("refresh-token")@, a));
            },
            None => {
                assert(opt_kv_lines(("refresh-token")@, c.refresh_token).len() == 0);
            },
        }
    }
    assert(free_of_headers(opt_kv_lines(("client-id")@, c.client_id))) by {
        match c.client_id {
            Some(a) => {
                assert(opt_kv_lines(("client-id")@, c.client_id)[0] == kv_line(("client-id")@, a));
                assert(kv_line(("client-id")@, a)[0] == (("client-id")@)[0]);
            },
            None => {
                assert(opt_kv_lines(("client-id")@, c.client_id).len() == 0);
            },
        }
    }
    assert(free_of_headers(opt_kv_lines(("client-secret")@, c.client_secret))) by {
        match c.client_secret {
            Some(a) => {
                assert(opt_kv_lines(("client-secret")@, c.client_secret)[0] == kv_line(("client-secret")@, a));
                assert(kv_line(("client-secret")@, a)[0] == (("client-secret")@)[0]);
            },
            None => {
                assert(opt_kv_lines(("client-secret")@, c.client_secret).len() == 0);
            },
        }
    }
    lemma_free_of_headers_append(opt_kv_lines(("client-id")@, c.client_id), opt_kv_lines(("client-secret")@, c.client_secret));
    lemma_last_entry_wins(
        opt_kv_lines(("client-id")@, c.client_id) + opt_kv_lines(("client-secret")@, c.client_secret),
        kv_line(("redirect-uri")@, c.redirect_uri),
        opt_kv_lines(("refresh-token")@, c.refresh_token),
        ("SpotifyWeb")@,
        ("redirect-uri")@,
    );
    assert(web_body(c) =~= opt_kv_lines(("client-id")@, c.client_id) + opt_kv_lines(("client-secret")@, c.client_secret) + (seq![kv_line(("redirect-uri")@, c.redirect_uri)] + (opt_kv_lines(("refresh-token")@, c.refresh_token))));
}

proof fn lemma_lookup_api(c: ConfigV)
    ensures
        ini_get(defaults_body(c), ("Defaults")@, ("Defaults")@, ("api")@) == match c.api {
            Some(a) => Some(crate::api::api_name(a)),
            None => None,
        },
{
    reveal_strlit("debug");
    reveal_strlit("lyrics-enabled");
    reveal_strlit("fullscreen");
    reveal_strlit("dark-mode");
    reveal_strlit("stay-on-top");
    reveal_strlit("api");
    reveal_strlit("player");
    reveal_strlit("audiosync");
    reveal_strlit("audiosync-calibration-ms");
    reveal_strlit("player-flags");
    reveal_strlit("client-id");
    reveal_strlit("client-secret");
    reveal_strlit("redirect-uri");
    reveal_strlit("refresh-token");
    match c.api {
        Some(a) => {
            lemma_kv_line_parses(("api")@, crate::api::api_name(a));
            lemma_kv_line_parses(("audiosync")@, format_bool_spec(c.audiosync));
            lemma_kv_line_parses(("audiosync-calibration-ms")@, format_i32_spec(c.audiosync_calibration as int));
            lemma_kv_line_parses(("player-flags")@, c.mpv_flags);
            assert(free_of_key(player_lines(c.player), ("api")@)) by {
                match c.player {
                    Some(a) => {
                        lemma_kv_line_parses(("player")@, crate::player::player_name(a));
                        assert(player_lines(c.player)[0] == kv_line(("player")@, crate::player::player_name(a)));
                    },
                    None => {
                        assert(player_lines(c.player).len() == 0);
                    },
                }
            }
            assert(free_of_key(seq![kv_line(("audiosync")@, format_bool_spec(c.audiosync)), kv_line(("audiosync-calibration-ms")@, format_i32_spec(c.audiosync_calibration as int)), kv_line(("player-flags")@, c.mpv_flags)], ("api")@)) by {
                    assert(seq![kv_line(("audiosync")@, format_bool_spec(c.audiosync)), kv_line(("audiosync-calibration-ms")@, format_i32_spec(c.audiosync_calibration as int)), kv_line(("player-flags")@, c.mpv_flags)][0] == kv_line(("audiosync")@, format_bool_spec(c.audiosync)));
                    assert(seq![kv_line(("audiosync")@, format_bool_spec(c.audiosync)), kv_line(("audiosync-calibration-ms")@, format_i32_spec(c.audiosync_calibration as int)), kv_line(("player-flags")@, c.mpv_flags)][1] == kv_line(("audiosync-calibration-ms")@, format_i32_spec(c.audiosync_calibration as int)));
                    assert(seq![kv_line(("audiosync")@, format_bool_spec(c.audiosync)), kv_line(("audiosync-calibration-ms")@, format_i32_spec(c.audiosync_calibration as int)), kv_line(("player-flags")@, c.mpv_flags)][2] == kv_line(("player-flags")@, c.mpv_flags));
            }
            lemma_free_of_key_append(player_lines(c.player), seq![kv_line(("audiosync")@, format_bool_spec(c.audiosync)), kv_line(("audiosync-calibration-ms")@, format_i32_spec(c.audiosync_calibration as int)), kv_line(("player-flags")@, c.mpv_flags)], ("api")@);
            assert(free_of_headers(seq![kv_line(("debug")@, format_bool_spec(c.debug)), kv_line(("lyrics-enabled")@, format_bool_spec(c.lyrics)), kv_line(("fullscreen")@, format_bool_spec(c.fullscreen)), kv_line(("dark-mode")@, format_bool_spec(c.dark_mode)), kv_line(("stay-on-top")@, format_bool_spec(c.stay_on_top))])) by {
                    assert(seq![kv_line(("debug")@, format_bool_spec(c.debug)), kv_line(("lyrics-enabled")@, format_bool_spec(c.lyrics)), kv_line(("fullscreen")@, format_bool_spec(c.fullscreen)), kv_line(("dark-mode")@, format_bool_spec(c.dark_mode)), kv_line(("stay-on-top")@, format_bool_spec(c.stay_on_top))][0] == kv_line(("debug")@, format_bool_spec(c.debug)));
                    assert(kv_line(("debug")@, format_bool_spec(c.debug))[0] == (("debug")@)[0]);
                    assert(seq![kv_line(("debug")@, format_bool_spec(c.debug)), kv_line(("lyrics-enabled")@, format_bool_spec(c.lyrics)), kv_line(("fullscreen")@, format_bool_spec(c.fullscreen)), kv_line(("dark-mode")@, format_bool_spec(c.dark_mode)), kv_line(("stay-on-top")@, format_bool_spec(c.stay_on_top))][1] == kv_line(("lyrics-enabled")@, format_bool_spec(c.lyrics)));
                    assert(kv_line(("lyrics-enabled")@, format_bool_spec(c.lyrics))[0] == (("lyrics-enabled")@)[0]);
                    assert(seq![kv_line(("debug")@, format_bool_spec(c.debug)), kv_line(("lyrics-enabled")@, format_bool_spec(c.lyrics)), kv_line(("fullscreen")@, format_bool_spec(c.fullscreen)), kv_line(("dark-mode")@, format_bool_spec(c.dark_mode)), kv_line(("stay-on-top")@, format_bool_spec(c.stay_on_top))][2] == kv_line(("fullscreen")@, format_bool_spec(c.fullscreen)));
                    assert(kv_line(("fullscreen")@, format_bool_spec(c.fullscreen))[0] == (("fullscreen")@)[0]);
                    assert(seq![kv_line(("debug")@, format_bool_spec(c.debug)), kv_line(("lyrics-enabled")@, format_bool_spec(c.lyrics)), kv_line(("fullscreen")@, format_bool_spec(c.fullscreen)), kv_line(("dark-mode")@, format_bool_spec(c.dark_mode)), kv_line(("stay-on-top")@, format_bool_spec(c.stay_on_top))][3] == kv_line(("dark-mode")@, format_bool_spec(c.dark_mode)));
                    assert(kv_line(("dark-mode")@, format_bool_spec(c.dark_mode))[0] == (("dark-mode")@)[0]);
                    assert(seq![kv_line(("debug")@, format_bool_spec(c.debug)), kv_line(("lyrics-enabled")@, format_bool_spec(c.lyrics)), kv_line(("fullscreen")@, format_bool_spec(c.fullscreen)), kv_line(("dark-mode")@, format_bool_spec(c.dark_mode)), kv_line(("stay-on-top")@, format_bool_spec(c.stay_on_top))][4] == kv_line(("stay-on-top")@, format_bool_spec(c.stay_on_top)));
                    assert(kv_line(("stay-on-top")@, format_bool_spec(c.stay_on_top))[0] == (("stay-on-top")@)[0]);
            }
            lemma_last_entry_wins(
                seq![kv_line(("debug")@, format_bool_spec(c.debug)), kv_line(("lyrics-enabled")@, format_bool_spec(c.lyrics)), kv_line(("fullscreen")@, format_bool_spec(c.fullscreen)), kv_line(("dark-mode")@, format_bool_spec(c.dark_mode)), kv_line(("stay-on-top")@, format_bool_spec(c.stay_on_top))],
                kv_line(("api")@, crate::api::api_name(a)),
                player_lines(c.player) + seq![kv_line(("audiosync")@, format_bool_spec(c.audiosync)), kv_line(("audiosync-calibration-ms")@, format_i32_spec(c.audiosync_calibration as int)), kv_line(("player-flags")@, c.mpv_flags)],
                ("Defaults")@,
                ("api")@,
            );
            assert(defaults_body(c) =~= seq![kv_line(("debug")@, format_bool_spec(c.debug)), kv_line(("lyrics-enabled")@, format_bool_spec(c.lyrics)), kv_line(("fullscreen")@, format_bool_spec(c.fullscreen)), kv_line(("dark-mode")@, format_bool_spec(c.dark_mode)), kv_line(("stay-on-top")@, format_bool_spec(c.stay_on_top))] + (seq![kv_line(("api")@, crate::api::api_name(a))] + (player_lines(c.player) + seq![kv_line(("audiosync")@, format_bool_spec(c.audiosync)), kv_line(("audiosync-calibration-ms")@, format_i32_spec(c.audiosync_calibration as int)), kv_line(("player-flags")@, c.mpv_flags)])));
        },
        None => {
            lemma_kv_line_parses(("debug")@, format_bool_spec(c.debug));
            lemma_kv_line_parses(("lyrics-enabled")@, format_bool_spec(c.lyrics));
            lemma_kv_line_parses(("fullscreen")@, format_bool_spec(c.fullscreen));
            lemma_kv_line_parses(("dark-mode")@, format_bool_spec(c.dark_mode));
            lemma_kv_line_parses(("stay-on-top")@, format_bool_spec(c.stay_on_top));
            lemma_kv_line_parses(("audiosync")@, format_bool_spec(c.audiosync));
            lemma_kv_line_parses(("audiosync-calibration-ms")@, format_i32_spec(c.audiosync_calibration as int));
            lemma_kv_line_parses(("player-flags")@, c.mpv_flags);
            assert(free_of_key(seq![kv_line(("debug")@, format_bool_spec(c.debug)), kv_line(("lyrics-enabled")@, format_bool_spec(c.lyrics)), kv_line(("fullscreen")@, format_bool_spec(c.fullscreen)), kv_line(("dark-mode")@, format_bool_spec(c.dark_mode)), kv_line(("stay-on-top")@, format_bool_spec(c.stay_on_top))], ("api")@)) by {
                    assert(seq![kv_line(("debug")@, format_bool_spec(c.debug)), kv_line(("lyrics-enabled")@, format_bool_spec(c.lyrics)), kv_line(("fullscreen")@, format_bool_spec(c.fullscreen)), kv_line(("dark-mode")@, format_bool_spec(c.dark_mode)), kv_line(("stay-on-top")@, format_bool_spec(c.stay_on_top))][0] == kv_line(("debug")@, format_bool_spec(c.debug)));
                    assert(seq![kv_line(("debug")@, format_bool_spec(c.debug)), kv_line(("lyrics-enabled")@, format_bool_spec(c.lyrics)), kv_line(("fullscreen")@, format_bool_spec(c.fullscreen)), kv_line(("dark-mode")@, format_bool_spec(c.dark_mode)), kv_line(("stay-on-top")@, format_bool_spec(c.stay_on_top))][1] == kv_line(("lyrics-enabled")@, format_bool_spec(c.lyrics)));
                    assert(seq![kv_line(("debug")@, format_bool_spec(c.debug)), kv_line(("lyrics-enabled")@, format_bool_spec(c.lyrics)), kv_line(("fullscreen")@, format_bool_spec(c.fullscreen)), kv_line(("dark-mode")@, format_bool_spec(c.dark_mode)), kv_line(("stay-on-top")@, format_bool_spec(c.stay_on_top))][2] == kv_line(("fullscreen")@, format_bool_spec(c.fullscreen)));
                    assert(seq![kv_line(("debug")@, format_bool_spec(c.debug)), kv_line(("lyrics-enabled")@, format_bool_spec(c.lyrics)), kv_line(("fullscreen")@, format_bool_spec(c.fullscreen)), kv_line(("dark-mode")@, format_bool_spec(c.dark_mode)), kv_line(("stay-on-top")@, format_bool_spec(c.stay_on_top))][3] == kv_line(("dark-mode")@, format_bool_spec(c.dark_mode)));
                    assert(seq![kv_line(("debug")@, format_bool_spec(c.debug)), kv_line(("lyrics-enabled")@, format_bool_spec(c.lyrics)), kv_line(("fullscreen")@, format_bool_spec(c.fullscreen)), kv_line(("dark-mode")@, format_bool_spec(c.dark_mode)), kv_line(("stay-on-top")@, format_bool_spec(c.stay_on_top))][4] == kv_line(("stay-on-top")@, format_bool_spec(c.stay_on_top)));
            }
            assert(free_of_key(player_lines(c.player), ("api")@)) by {
                match c.player {
                    Some(a) => {
                        lemma_kv_line_parses(("player")@, crate::player::player_name(a));
                        assert(player_lines(c.player)[0] == kv_line(("player")@, crate::player::player_name(a)));
                    },
                    None => {
                        assert(player_lines(c.player).len() == 0);
                    },
                }
            }
            assert(free_of_key(seq![kv_line(("audiosync")@, format_bool_spec(c.audiosync)), kv_line(("audiosync-calibration-ms")@, format_i32_spec(c.audiosync_calibration as int)), kv_line(("player-flags")@, c.mpv_flags)], ("api")@)) by {
                    assert(seq![kv_line(("audiosync")@, format_bool_spec(c.audiosync)), kv_line(("audiosync-calibration-ms")@, format_i32_spec(c.audiosync_calibration as int)), kv_line(("player-flags")@, c.mpv_flags)][0] == kv_line(("audiosync")@, format_bool_spec(c.audiosync)));
                    assert(seq![kv_line(("audiosync")@, format_bool_spec(c.audiosync)), kv_line(("audiosync-calibration-ms")@, format_i32_spec(c.audiosync_calibration as int)), kv_line(("player-flags")@, c.mpv_flags)][1] == kv_line(("audiosync-calibration-ms")@, format_i32_spec(c.audiosync_calibration as int)));
                    assert(seq![kv_line(("audiosync")@, format_bool_spec(c.audiosync)), kv_line(("audiosync-calibration-ms")@, format_i32_spec(c.audiosync_calibration as int)), kv_line(("player-flags")@, c.mpv_flags)][2] == kv_line(("player-flags")@, c.mpv_flags));
            }
            assert(free_of_key(api_lines(c.api), ("api")@)) by {
                assert(api_lines(c.api).len() == 0);
            }
            lemma_free_of_key_append(seq![kv_line(("debug")@, format_bool_spec(c.debug)), kv_line(("lyrics-enabled")@, format_bool_spec(c.lyrics)), kv_line(("fullscreen")@, format_bool_spec(c.fullscreen)), kv_line(("dark-mode")@, format_bool_spec(c.dark_mode)), kv_line(("stay-on-top")@, format_bool_spec(c.stay_on_top))], api_lines(c.api), ("api")@);
            lemma_free_of_key_append(seq![kv_line(("debug")@, format_bool_spec(c.debug)), kv_line(("lyrics-enabled")@, format_bool_spec(c.lyrics)), kv_line(("fullscreen")@, format_bool_spec(c.fullscreen)), kv_line(("dark-mode")@, format_bool_spec(c.dark_mode)), kv_line(("stay-on-top")@, format_bool_spec(c.stay_on_top))] + api_lines(c.api), player_lines(c.player), ("api")@);
            lemma_free_of_key_append(seq![kv_line(("debug")@, format_bool_spec(c.debug)), kv_line(("lyrics-enabled")@, format_bool_spec(c.lyrics)), kv_line(("fullscreen")@, format_bool_spec(c.fullscreen)), kv_line(("dark-mode")@, format_bool_spec(c.dark_mode)), kv_line(("stay-on-top")@, format_bool_spec(c.stay_on_top))] + api_lines(c.api) + player_lines(c.player), seq![kv_line(("audiosync")@, format_bool_spec(c.audiosync)), kv_line(("audiosync-calibration-ms")@, format_i32_spec(c.audiosync_calibration as int)), kv_line(("player-flags")@, c.mpv_flags)], ("api")@);
            assert(defaults_body(c) == seq![kv_line(("debug")@, format_bool_spec(c.debug)), kv_line(("lyrics-enabled")@, format_bool_spec(c.lyrics)), kv_line(("fullscreen")@, format_bool_spec(c.fullscreen)), kv_line(("dark-mode")@, format_bool_spec(c.dark_mode)), kv_line(("stay-on-top")@, format_bool_spec(c.stay_on_top))] + api_lines(c.api) + player_lines(c.player) + seq![kv_line(("audiosync")@, format_bool_spec(c.audiosync)), kv_line(("audiosync-calibration-ms")@, format_i32_spec(c.audiosync_calibration as int)), kv_line(("player-flags")@, c.mpv_flags)]);
            lemma_ini_get_free(defaults_body(c), ("Defaults")@, ("Defaults")@, ("api")@);
        },
    }
}

proof fn lemma_lookup_player(c: ConfigV)
    ensures
        ini_get(defaults_body(c), ("Defaults")@, ("Defaults")@, ("player")@) == match c.player {
            Some(a) => Some(crate::player::player_name(a)),
            None => None,
        },
{
    reveal_strlit("debug");
    reveal_strlit("lyrics-enabled");
    reveal_strlit("fullscreen");
    reveal_strlit("dark-mode");
    reveal_strlit("stay-on-top");
    reveal_strlit("api");
    reveal_strlit("player");
    reveal_strlit("audiosync");
    reveal_strlit("audiosync-calibration-ms");
    reveal_strlit("player-flags");
    reveal_strlit("client-id");
    reveal_strlit("client-secret");
    reveal_strlit("redirect-uri");
    reveal_strlit("refresh-token");
    match c.player {
        Some(a) => {
            lemma_kv_line_parses(("player")@, crate::player::player_name(a));
            lemma_kv_line_parses(("audiosync")@, format_bool_spec(c.audiosync));
            lemma_kv_line_parses(("audiosync-calibration-ms")@, format_i32_spec(c.audiosync_calibration as int));
            lemma_kv_line_parses(("player-flags")@, c.mpv_flags);
            assert(free_of_key(seq![kv_line(("audiosync")@, format_bool_spec(c.audiosync)), kv_line(("audiosync-calibration-ms")@, format_i32_spec(c.audiosync_calibration as int)), kv_line(("player-flags")@, c.mpv_flags)], ("player")@)) by {
                    assert(seq![kv_line(("audiosync")@, format_bool_spec(c.audiosync)), kv_line(("audiosync-calibration-ms")@, format_i32_spec(c.audiosync_calibration as int)), kv_line(("player-flags")@, c.mpv_flags)][0] == kv_line(("audiosync")@, format_bool_spec(c.audiosync)));
                    assert(seq![kv_line(("audiosync")@, format_bool_spec(c.audiosync)), kv_line(("audiosync-calibration-ms")@, format_i32_spec(c.audiosync_calibration as int)), kv_line(("player-flags")@, c.mpv_flags)][1] == kv_line(("audiosync-calibration-ms")@, format_i32_spec(c.audiosync_calibration as int)));
                    assert(seq![kv_line(("audiosync")@, format_bool_spec(c.audiosync)), kv_line(("audiosync-calibration-ms")@, format_i32_spec(c.audiosync_calibration as int)), kv_line(("player-flags")@, c.mpv_flags)][2] == kv_line(("player-flags")@, c.mpv_flags));
            }
            assert(free_of_headers(seq![kv_line(("debug")@, format_bool_spec(c.debug)), kv_line(("lyrics-enabled")@, format_bool_spec(c.lyrics)), kv_line(("fullscreen")@, format_bool_spec(c.fullscreen)), kv_line(("dark-mode")@, format_bool_spec(c.dark_mode)), kv_line(("stay-on-top")@, format_bool_spec(c.stay_on_top))])) by {
                    assert(seq![kv_line(("debug")@, format_bool_spec(c.debug)), kv_line(("lyrics-enabled")@, format_bool_spec(c.lyrics)), kv_line(("fullscreen")@, format_bool_spec(c.fullscreen)), kv_line(("dark-mode")@, format_bool_spec(c.dark_mode)), kv_line(("stay-on-top")@, format_bool_spec(c.stay_on_top))][0] == kv_line(("debug")@, format_bool_spec(c.debug)));
                    assert(kv_line(("debug")@, format_bool_spec(c.debug))[0] == (("debug")@)[0]);
                    assert(seq![kv_line(("debug")@, format_bool_spec(c.debug)), kv_line(("lyrics-enabled")@, format_bool_spec(c.lyrics)), kv_line(("fullscreen")@, format_bool_spec(c.fullscreen)), kv_line(("dark-mode")@, format_bool_spec(c.dark_mode)), kv_line(("stay-on-top")@, format_bool_spec(c.stay_on_top))][1] == kv_line(("lyrics-enabled")@, format_bool_spec(c.lyrics)));
                    assert(kv_line(("lyrics-enabled")@, format_bool_spec(c.lyrics))[0] == (("lyrics-enabled")@)[0]);
                    assert(seq![kv_line(("debug")@, format_bool_spec(c.debug)), kv_line(("lyrics-enabled")@, format_bool_spec(c.lyrics)), kv_line(("fullscreen")@, format_bool_spec(c.fullscreen)), kv_line(("dark-mode")@, format_bool_spec(c.dark_mode)), kv_line(("stay-on-top")@, format_bool_spec(c.stay_on_top))][2] == kv_line(("fullscreen")@, format_bool_spec(c.fullscreen)));
                    assert(kv_line(("fullscreen")@, format_bool_spec(c.fullscreen))[0] == (("fullscreen")@)[0]);
                    assert(seq![kv_line(("debug")@, format_bool_spec(c.debug)), kv_line(("lyrics-enabled")@, format_bool_spec(c.lyrics)), kv_line(("fullscreen")@, format_bool_spec(c.fullscreen)), kv_line(("dark-mode")@, format_bool_spec(c.dark_mode)), kv_line(("stay-on-top")@, format_bool_spec(c.stay_on_top))][3] == kv_line(("dark-mode")@, format_bool_spec(c.dark_mode)));
                    assert(kv_line(("dark-mode")@, format_bool_spec(c.dark_mode))[0] == (("dark-mode")@)[0]);
                    assert(seq![kv_line(("debug")@, format_bool_spec(c.debug)), kv_line(("lyrics-enabled")@, format_bool_spec(c.lyrics)), kv_line(("fullscreen")@, format_bool_spec(c.fullscreen)), kv_line(("dark-mode")@, format_bool_spec(c.dark_mode)), kv_line(("stay-on-top")@, format_bool_spec(c.stay_on_top))][4] == kv_line(("stay-on-top")@, format_bool_spec(c.stay_on_top)));
                    assert(kv_line(("stay-on-top")@, format_bool_spec(c.stay_on_top))[0] == (("stay-on-top")@)[0]);
            }
            assert(free_of_headers(api_lines(c.api))) by {
                match c.api {
                    Some(a) => {
                        assert(api_lines(c.api)[0] == kv_line(("api")@, crate::api::api_name(a)));
                        assert(kv_line(("api")@, crate::api::api_name(a))[0] == (("api")@)[0]);
                    },
                    None => {
                        assert(api_lines(c.api).len() == 0);
                    },
                }
            }
            lemma_free_of_headers_append(seq![kv_line(("debug")@, format_bool_spec(c.debug)), kv_line(("lyrics-enabled")@, format_bool_spec(c.lyrics)), kv_line(("fullscreen")@, format_bool_spec(c.fullscreen)), kv_line(("dark-mode")@, format_bool_spec(c.dark_mode)), kv_line(("stay-on-top")@, format_bool_spec(c.stay_on_top))], api_lines(c.api));
            lemma_last_entry_wins(
                seq![kv_line(("debug")@, format_bool_spec(c.debug)), kv_line(("lyrics-enabled")@, format_bool_spec(c.lyrics)), kv_line(("fullscreen")@, format_bool_spec(c.fullscreen)), kv_line(("dark-mode")@, format_bool_spec(c.dark_mode)), kv_line(("stay-on-top")@, format_bool_spec(c.stay_on_top))] + api_lines(c.api),
                kv_line(("player")@, crate::player::player_name(a)),
                seq![kv_line(("audiosync")@, format_bool_spec(c.audiosync)), kv_line(("audiosync-calibration-ms")@, format_i32_spec(c.audiosync_calibration as int)), kv_line(("player-flags")@, c.mpv_flags)],
                ("Defaults")@,
                ("player")@,
            );
            assert(defaults_body(c) =~= seq![kv_line(("debug")@, format_bool_spec(c.debug)), kv_line(("lyrics-enabled")@, format_bool_spec(c.lyrics)), kv_line(("fullscreen")@, format_bool_spec(c.fullscreen)), kv_line(("dark-mode")@, format_bool_spec(c.dark_mode)), kv_line(("stay-on-top")@, format_bool_spec(c.stay_on_top))] + api_lines(c.api) + (seq![kv_line(("player")@, crate::player::player_name(a))] + (seq![kv_line(("audiosync")@, format_bool_spec(c.audiosync)), kv_line(("audiosync-calibration-ms")@, format_i32_spec(c.audiosync_calibration as int)), kv_line(("player-flags")@, c.mpv_flags)])));
        },
        None => {
            lemma_kv_line_parses(("debug")@, format_bool_spec(c.debug));
            lemma_kv_line_parses(("lyrics-enabled")@, format_bool_spec(c.lyrics));
            lemma_kv_line_parses(("fullscreen")@, format_bool_spec(c.fullscreen));
            lemma_kv_line_parses(("dark-mode")@, format_bool_spec(c.dark_mode));
            lemma_kv_line_parses(("stay-on-top")@, format_bool_spec(c.stay_on_top));
            lemma_kv_line_parses(("audiosync")@, format_bool_spec(c.audiosync));
            lemma_kv_line_parses(("audiosync-calibration-ms")@, format_i32_spec(c.audiosync_calibration as int));
            lemma_kv_line_parses(("player-flags")@, c.mpv_flags);
            assert(free_of_key(seq![kv_line(("debug")@, format_bool_spec(c.debug)), kv_line(("lyrics-enabled")@, format_bool_spec(c.lyrics)), kv_line(("fullscreen")@, format_bool_spec(c.fullscreen)), kv_line(("dark-mode")@, format_bool_spec(c.dark_mode)), kv_line(("stay-on-top")@, format_bool_spec(c.stay_on_top))], ("player")@)) by {
                    assert(seq![kv_line(("debug")@, format_bool_spec(c.debug)), kv_line(("lyrics-enabled")@, format_bool_spec(c.lyrics)), kv_line(("fullscreen")@, format_bool_spec(c.fullscreen)), kv_line(("dark-mode")@, format_bool_spec(c.dark_mode)), kv_line(("stay-on-top")@, format_bool_spec(c.stay_on_top))][0] == kv_line(("debug")@, format_bool_spec(c.debug)));
                    assert(seq![kv_line(("debug")@, format_bool_spec(c.debug)), kv_line(("lyrics-enabled")@, format_bool_spec(c.lyrics)), kv_line(("fullscreen")@, format_bool_spec(c.fullscreen)), kv_line(("dark-mode")@, format_bool_spec(c.dark_mode)), kv_line(("stay-on-top")@, format_bool_spec(c.stay_on_top))][1] == kv_line(("lyrics-enabled")@, format_bool_spec(c.lyrics)));
                    assert(seq![kv_line(("debug")@, format_bool_spec(c.debug)), kv_line(("lyrics-enabled")@, format_bool_spec(c.lyrics)), kv_line(("fullscreen")@, format_bool_spec(c.fullscreen)), kv_line(("dark-mode")@, format_bool_spec(c.dark_mode)), kv_line(("stay-on-top")@, format_bool_spec(c.stay_on_top))][2] == kv_line(("fullscreen")@, format_bool_spec(c.fullscreen)));
                    assert(seq![kv_line(("debug")@, format_bool_spec(c.debug)), kv_line(("lyrics-enabled")@, format_bool_spec(c.lyrics)), kv_line(("fullscreen")@, format_bool_spec(c.fullscreen)), kv_line(("dark-mode")@, format_bool_spec(c.dark_mode)), kv_line(("stay-on-top")@, format_bool_spec(c.stay_on_top))][3] == kv_line(("dark-mode")@, format_bool_spec(c.dark_mode)));
                    assert(seq![kv_line(("debug")@, format_bool_spec(c.debug)), kv_line(("lyrics-enabled")@, format_bool_spec(c.lyrics)), kv_line(("fullscreen")@, format_bool_spec(c.fullscreen)), kv_line(("dark-mode")@, format_bool_spec(c.dark_mode)), kv_line(("stay-on-top")@, format_bool_spec(c.stay_on_top))][4] == kv_line(("stay-on-top")@, format_bool_spec(c.stay_on_top)));
            }
            assert(free_of_key(api_lines(c.api), ("player")@)) by {
                match c.api {
                    Some(a) => {
                        lemma_kv_line_parses(("api")@, crate::api::api_name(a));
                        assert(api_lines(c.api)[0] == kv_line(("api")@, crate::api::api_name(a)));
                    },
                    None => {
                        assert(api_lines(c.api).len() == 0);
                    },
                }
            }
            assert(free_of_key(seq![kv_line(("audiosync")@, format_bool_spec(c.audiosync)), kv_line(("audiosync-calibration-ms")@, format_i32_spec(c.audiosync_calibration as int)), kv_line(("player-flags")@, c.mpv_flags)], ("player")@)) by {
                    assert(seq![kv_line(("audiosync")@, format_bool_spec(c.audiosync)), kv_line(("audiosync-calibration-ms")@, format_i32_spec(c.audiosync_calibration as int)), kv_line(("player-flags")@, c.mpv_flags)][0] == kv_line(("audiosync")@, format_bool_spec(c.audiosync)));
                    assert(seq![kv_line(("audiosync")@, format_bool_spec(c.audiosync)), kv_line(("audiosync-calibration-ms")@, format_i32_spec(c.audiosync_calibration as int)), kv_line(("player-flags")@, c.mpv_flags)][1] == kv_line(("audiosync-calibration-ms")@, format_i32_spec(c.audiosync_calibration as int)));
                    assert(seq![kv_line(("audiosync")@, format_bool_spec(c.audiosync)), kv_line(("audiosync-calibration-ms")@, format_i32_spec(c.audiosync_calibration as int)), kv_line(("player-flags")@, c.mpv_flags)][2] == kv_line(("player-flags")@, c.mpv_flags));
            }
            assert(free_of_key(player_lines(c.player), ("player")@)) by {
                assert(player_lines(c.player).len() == 0);
            }
            lemma_free_of_key_append(seq![kv_line(("debug")@, format_bool_spec(c.debug)), kv_line(("lyrics-enabled")@, format_bool_spec(c.lyrics)), kv_line(("fullscreen")@, format_bool_spec(c.fullscreen)), kv_line(("dark-mode")@, format_bool_spec(c.dark_mode)), kv_line(("stay-on-top")@, format_bool_spec(c.stay_on_top))], api_lines(c.api), ("player")@);
            lemma_free_of_key_append(seq![kv_line(("debug")@, format_bool_spec(c.debug)), kv_line(("lyrics-enabled")@, format_bool_spec(c.lyrics)), kv_line(("fullscreen")@, format_bool_spec(c.fullscreen)), kv_line(("dark-mode")@, format_bool_spec(c.dark_mode)), kv_line(("stay-on-top")@, format_bool_spec(c.stay_on_top))] + api_lines(c.api), player_lines(c.player), ("player")@);
            lemma_free_of_key_append(seq![kv_line(("debug")@, format_bool_spec(c.debug)), kv_line(("lyrics-enabled")@, format_bool_spec(c.lyrics)), kv_line(("fullscreen")@, format_bool_spec(c.fullscreen)), kv_line(("dark-mode")@, format_bool_spec(c.dark_mode)), kv_line(("stay-on-top")@, format_bool_spec(c.stay_on_top))] + api_lines(c.api) + player_lines(c.player), seq![kv_line(("audiosync")@, format_bool_spec(c.audiosync)), kv_line(("audiosync-calibration-ms")@, format_i32_spec(c.audiosync_calibration as int)), kv_line(("player-flags")@, c.mpv_flags)], ("player")@);
            assert(defaults_body(c) == seq![kv_line(("debug")@, format_bool_spec(c.debug)), kv_line(("lyrics-enabled")@, format_bool_spec(c.lyrics)), kv_line(("fullscreen")@, format_bool_spec(c.fullscreen)), kv_line(("dark-mode")@, format_bool_spec(c.dark_mode)), kv_line(("stay-on-top")@, format_bool_spec(c.stay_on_top))] + api_lines(c.api) + player_lines(c.player) + seq![kv_line(("audiosync")@, format_bool_spec(c.audiosync)), kv_line(("audiosync-calibration-ms")@, format_i32_spec(c.audiosync_calibration as int)), kv_line(("player-flags")@, c.mpv_flags)]);
            lemma_ini_get_free(defaults_body(c), ("Defaults")@, ("Defaults")@, ("player")@);
        },
    }
}

proof fn lemma_lookup_client_id(c: ConfigV)
    ensures
        ini_get(web_body(c), ("SpotifyWeb")@, ("SpotifyWeb")@, ("client-id")@) == match c.client_id {
            Some(a) => Some(a),
            None => None,
        },
{
    reveal_strlit("debug");
    reveal_strlit("lyrics-enabled");
    reveal_strlit("fullscreen");
    reveal_strlit("dark-mode");
    reveal_strlit("stay-on-top");
    reveal_strlit("api");
    reveal_strlit("player");
    reveal_strlit("audiosync");
    reveal_strlit("audiosync-calibration-ms");
    reveal_strlit("player-flags");
    reveal_strlit("client-id");
    reveal_strlit("client-secret");
    reveal_strlit("redirect-uri");
    reveal_strlit("refresh-token");
    match c.client_id {
        Some(a) => {
            lemma_kv_line_parses(("client-id")@, a);
            lemma_kv_line_parses(("redirect-uri")@, c.redirect_uri);
            assert(free_of_key(opt_kv_lines(("client-secret")@, c.client_secret), ("client-id")@)) by {
                match c.client_secret {
                    Some(a) => {
                        lemma_kv_line_parses(("client-secret")@, a);
                        assert(opt_kv_lines(("client-secret")@, c.client_secret)[0] == kv_line(("client-secret")@, a));
                    },
                    None => {
                        assert(opt_kv_lines(("client-secret")@, c.client_secret).len() == 0);
                    },
                }
            }
            assert(free_of_key(seq![kv_line(("redirect-uri")@, c.redirect_uri)], ("client-id")@)) by {
                    assert(seq![kv_line(("redirect-uri")@, c.redirect_uri)][0] == kv_line(("redirect-uri")@, c.redirect_uri));
            }
            assert(free_of_key(opt_kv_lines(("refresh-token")@, c.refresh_token), ("client-id")@)) by {
                match c.refresh_token {
                    Some(a) => {
                        lemma_kv_line_parses(("refresh-token")@, a);
                        assert(opt_kv_lines(("refresh-token")@, c.refresh_token)[0] == kv_line(("refresh-token")@, a));
                    },
                    None => {
                        assert(opt_kv_lines(("refresh-token")@, c.refresh_token).len() == 0);
                    },
                }
            }
            lemma_free_of_key_append(opt_kv_lines(("client-secret")@, c.client_secret), seq![kv_line(("redirect-uri")@, c.redirect_uri)], ("client-id")@);
            lemma_free_of_key_append(opt_kv_lines(("client-secret")@, c.client_secret) + seq![kv_line(("redirect-uri")@, c.redirect_uri)], opt_kv_lines(("refresh-token")@, c.refresh_token), ("client-id")@);
            assert(free_of_headers(Seq::<Seq<char>>::empty()));
            lemma_last_entry_wins(
                Seq::<Seq<char>>::empty(),
                kv_line(("client-id")@, a),
                opt_kv_lines(("client-secret")@, c.client_secret) + seq![kv_line(("redirect-uri")@, c.redirect_uri)] + opt_kv_lines(("refresh-token")@, c.refresh_token),
                ("SpotifyWeb")@,
                ("client-id")@,
            );
            assert(web_body(c) =~= Seq::<Seq<char>>::empty() + (seq![kv_line(("client-id")@, a)] + (opt_kv_lines(("client-secret")@, c.client_secret) + seq![kv_line(("redirect-uri")@, c.redirect_uri)] + opt_kv_lines(("refresh-token")@, c.refresh_token))));
        },
        None => {
            lemma_kv_line_parses(("redirect-uri")@, c.redirect_uri);
            assert(free_of_key(opt_kv_lines(("client-secret")@, c.client_secret), ("client-id")@)) by {
                match c.client_secret {
                    Some(a) => {
                        lemma_kv_line_parses(("client-secret")@, a);
                        assert(opt_kv_lines(("client-secret")@, c.client_secret)[0] == kv_line(("client-secret")@, a));
                    },
                    None => {
                        assert(opt_kv_lines(("client-secret")@, c.client_secret).len() == 0);
                    },
                }
            }
            assert(free_of_key(seq![kv_line(("redirect-uri")@, c.redirect_uri)], ("client-id")@)) by {
                    assert(seq![kv_line(("redirect-uri")@, c.redirect_uri)][0] == kv_line(("redirect-uri")@, c.redirect_uri));
            }
            assert(free_of_key(opt_kv_lines(("refresh-token")@, c.refresh_token), ("client-id")@)) by {
                match c.refresh_token {
                    Some(a) => {
                        lemma_kv_line_parses(("refresh-token")@, a);
                        assert(opt_kv_lines(("refresh-token")@, c.refresh_token)[0] == kv_line(("refresh-token")@, a));
                    },
                    None => {
                        assert(opt_kv_lines(("refresh-token")@, c.refresh_token).len() == 0);
                    },
                }
            }
            assert(free_of_key(opt_kv_lines(("client-id")@, c.client_id), ("client-id")@)) by {
                assert(opt_kv_lines(("client-id")@, c.client_id).len() == 0);
            }
            lemma_free_of_key_append(opt_kv_lines(("client-id")@, c.client_id), opt_kv_lines(("client-secret")@, c.client_secret), ("client-id")@);
            lemma_free_of_key_append(opt_kv_lines(("client-id")@, c.client_id) + opt_kv_lines(("client-secret")@, c.client_secret), seq![kv_line(("redirect-uri")@, c.redirect_uri)], ("client-id")@);
            lemma_free_of_key_append(opt_kv_lines(("client-id")@, c.client_id) + opt_kv_lines(("client-secret")@, c.client_secret) + seq![kv_line(("redirect-uri")@, c.redirect_uri)], opt_kv_lines(("refresh-token")@, c.refresh_token), ("client-id")@);
            assert(web_body(c) == opt_kv_lines(("client-id")@, c.client_id) + opt_kv_lines(("client-secret")@, c.client_secret) + seq![kv_line(("redirect-uri")@, c.redirect_uri)] + opt_kv_lines(("refresh-token")@, c.refresh_token));
            lemma_ini_get_free(web_body(c), ("SpotifyWeb")@, ("SpotifyWeb")@, ("client-id")@);
        },
    }
}

proof fn lemma_lookup_client_secret(c: ConfigV)
    ensures
        ini_get(web_body(c), ("SpotifyWeb")@, ("SpotifyWeb")@, ("client-secret")@) == match c.client_secret {
            Some(a) => Some(a),
            None => None,
        },
{
    reveal_strlit("debug");
    reveal_strlit("lyrics-enabled");
    reveal_strlit("fullscreen");
    reveal_strlit("dark-mode");
    reveal_strlit("stay-on-top");
    reveal_strlit("api");
    reveal_strlit("player");
    reveal_strlit("audiosync");
    reveal_strlit("audiosync-calibration-ms");
    reveal_strlit("player-flags");
    reveal_strlit("client-id");
    reveal_strlit("client-secret");
    reveal_strlit("redirect-uri");
    reveal_strlit("refresh-token");
    match c.client_secret {
        Some(a) => {
            lemma_kv_line_parses(("client-secret")@, a);
            lemma_kv_line_parses(("redirect-uri")@, c.redirect_uri);
            assert(free_of_key(seq![kv_line(("redirect-uri")@, c.redirect_uri)], ("client-secret")@)) by {
                    assert(seq![kv_line(("redirect-uri")@, c.redirect_uri)][0] == kv_line(("redirect-uri")@, c.redirect_uri));
            }
            assert(free_of_key(opt_kv_lines(("refresh-token")@, c.refresh_token), ("client-secret")@)) by {
                match c.refresh_token {
                    Some(a) => {
                        lemma_kv_line_parses(("refresh-token")@, a);
                        assert(opt_kv_lines(("refresh-token")@, c.refresh_token)[0] == kv_line(("refresh-token")@, a));
                    },
                    None => {
                        assert(opt_kv_lines(("refresh-token")@, c.refresh_token).len() == 0);
                    },
                }
            }
            lemma_free_of_key_append(seq![kv_line(("redirect-uri")@, c.redirect_uri)], opt_kv_lines(("refresh-token")@, c.refresh_token), ("client-secret")@);
            assert(free_of_headers(opt_kv_lines(("client-id")@, c.client_id))) by {
                match c.client_id {
                    Some(a) => {
                        assert(opt_kv_lines(("client-id")@, c.client_id)[0] == kv_line(("client-id")@, a));
                        assert(kv_line(("client-id")@, a)[0] == (("client-id")@)[0]);
                    },
                    None => {
                        assert(opt_kv_lines(("client-id")@, c.client_id).len() == 0);
                    },
                }
            }
            lemma_last_entry_wins(
                opt_kv_lines(("client-id")@, c.client_id),
                kv_line(("client-secret")@, a),
                seq![kv_line(("redirect-uri")@, c.redirect_uri)] + opt_kv_lines(("refresh-token")@, c.refresh_token),
                ("SpotifyWeb")@,
                ("client-secret")@,
            );
            assert(web_body(c) =~= opt_kv_lines(("client-id")@, c.client_id) + (seq![kv_line(("client-secret")@, a)] + (seq![kv_line(("redirect-uri")@, c.redirect_uri)] + opt_kv_lines(("refresh-token")@, c.refresh_token))));
        },
        None => {
            lemma_kv_line_parses(("redirect-uri")@, c.redirect_uri);
            assert(free_of_key(opt_kv_lines(("client-id")@, c.client_id), ("client-secret")@)) by {
                match c.client_id {
                    Some(a) => {
                        lemma_kv_line_parses(("client-id")@, a);
                        assert(opt_kv_lines(("client-id")@, c.client_id)[0] == kv_line(("client-id")@, a));
                    },
                    None => {
                        assert(opt_kv_lines(("client-id")@, c.client_id).len() == 0);
                    },
                }
            }
            assert(free_of_key(seq![kv_line(("redirect-uri")@, c.redirect_uri)], ("client-secret")@)) by {
                    assert(seq![kv_line(("redirect-uri")@, c.redirect_uri)][0] == kv_line(("redirect-uri")@, c.redirect_uri));
            }
            assert(free_of_key(opt_kv_lines(("refresh-token")@, c.refresh_token), ("client-secret")@)) by {
                match c.refresh_token {
                    Some(a) => {
                        lemma_kv_line_parses(("refresh-token")@, a);
                        assert(opt_kv_lines(("refresh-token")@, c.refresh_token)[0] == kv_line(("refresh-token")@, a));
                    },
                    None => {
                        assert(opt_kv_lines(("refresh-token")@, c.refresh_token).len() == 0);
                    },
                }
            }
            assert(free_of_key(opt_kv_lines(("client-secret")@, c.client_secret), ("client-secret")@)) by {
                assert(opt_kv_lines(("client-secret")@, c.client_secret).len() == 0);
            }
            lemma_free_of_key_append(opt_kv_lines(("client-id")@, c.client_id), opt_kv_lines(("client-secret")@, c.client_secret), ("client-secret")@);
            lemma_free_of_key_append(opt_kv_lines(("client-id")@, c.client_id) + opt_kv_lines(("client-secret")@, c.client_secret), seq![kv_line(("redirect-uri")@, c.redirect_uri)], ("client-secret")@);
            lemma_free_of_key_append(opt_kv_lines(("client-id")@, c.client_id) + opt_kv_lines(("client-secret")@, c.client_secret) + seq![kv_line(("redirect-uri")@, c.redirect_uri)], opt_kv_lines(("refresh-token")@, c.refresh_token), ("client-secret")@);
            assert(web_body(c) == opt_kv_lines(("client-id")@, c.client_id) + opt_kv_lines(("client-secret")@, c.client_secret) + seq![kv_line(("redirect-uri")@, c.redirect_uri)] + opt_kv_lines(("refresh-token")@, c.refresh_token));
            lemma_ini_get_free(web_body(c), ("SpotifyWeb")@, ("SpotifyWeb")@, ("client-secret")@);
        },
    }
}

proof fn lemma_lookup_refresh_token(c: ConfigV)
    ensures
        ini_get(web_body(c), ("SpotifyWeb")@, ("SpotifyWeb")@, ("refresh-token")@) == match c.refresh_token {
            Some(a) => Some(a),
            None => None,
        },
{
    reveal_strlit("debug");
    reveal_strlit("lyrics-enabled");
    reveal_strlit("fullscreen");
    reveal_strlit("dark-mode");
    reveal_strlit("stay-on-top");
    reveal_strlit("api");
    reveal_strlit("player");
    reveal_strlit("audiosync");
    reveal_strlit("audiosync-calibration-ms");
    reveal_strlit("player-flags");
    reveal_strlit("client-id");
    reveal_strlit("client-secret");
    reveal_strlit("redirect-uri");
    reveal_strlit("refresh-token");
    match c.refresh_token {
        Some(a) => {
            lemma_kv_line_parses(("refresh-token")@, a);
            assert(free_of_key(Seq::<Seq<char>>::empty(), ("refresh-token")@));
            assert(free_of_headers(opt_kv_lines(("client-id")@, c.client_id))) by {
                match c.client_id {
                    Some(a) => {
                        assert(opt_kv_lines(("client-id")@, c.client_id)[0] == kv_line(("client-id")@, a));
                        assert(kv_line(("client-id")@, a)[0] == (("client-id")@)[0]);
                    },
                    None => {
                        assert(opt_kv_lines(("client-id")@, c.client_id).len() == 0);
                    },
                }
            }
            assert(free_of_headers(opt_kv_lines(("client-secret")@, c.client_secret))) by {
                match c.client_secret {
                    Some(a) => {
                        assert(opt_kv_lines(("client-secret")@, c.client_secret)[0] == kv_line(("client-secret")@, a));
                        assert(kv_line(("client-secret")@, a)[0] == (("client-secret")@)[0]);
                    },
                    None => {
                        assert(opt_kv_lines(("client-secret")@, c.client_secret).len() == 0);
                    },
                }
            }
            assert(free_of_headers(seq![kv_line(("redirect-uri")@, c.redirect_uri)])) by {
                    assert(seq![kv_line(("redirect-uri")@, c.redirect_uri)][0] == kv_line(("redirect-uri")@, c.redirect_uri));
                    assert(kv_line(("redirect-uri")@, c.redirect_uri)[0] == (("redirect-uri")@)[0]);
            }
            lemma_free_of_headers_append(opt_kv_lines(("client-id")@, c.client_id), opt_kv_lines(("client-secret")@, c.client_secret));
            lemma_free_of_headers_append(opt_kv_lines(("client-id")@, c.client_id) + opt_kv_lines(("client-secret")@, c.client_secret), seq![kv_line(("redirect-uri")@, c.redirect_uri)]);
            lemma_last_entry_wins(
                opt_kv_lines(("client-id")@, c.client_id) + opt_kv_lines(("client-secret")@, c.client_secret) + seq![kv_line(("redirect-uri")@, c.redirect_uri)],
                kv_line(("refresh-token")@, a),
                Seq::<Seq<char>>::empty(),
                ("SpotifyWeb")@,
                ("refresh-token")@,
            );
            assert(web_body(c) =~= opt_kv_lines(("client-id")@, c.client_id) + opt_kv_lines(("client-secret")@, c.client_secret) + seq![kv_line(("redirect-uri")@, c.redirect_uri)] + (seq![kv_line(("refresh-token")@, a)] + (Seq::<Seq<char>>::empty())));
        },
        None => {
            lemma_kv_line_parses(("redirect-uri")@, c.redirect_uri);
            assert(free_of_key(opt_kv_lines(("client-id")@, c.client_id), ("refresh-token")@)) by {
                match c.client_id {
                    Some(a) => {
                        lemma_kv_line_parses(("client-id")@, a);
                        assert(opt_kv_lines(("client-id")@, c.client_id)[0] == kv_line(("client-id")@, a));
                    },
                    None => {
                        assert(opt_kv_lines(("client-id")@, c.client_id).len() == 0);
                    },
                }
            }
            assert(free_of_key(opt_kv_lines(("client-secret")@, c.client_secret), ("refresh-token")@)) by {
                match c.client_secret {
                    Some(a) => {
                        lemma_kv_line_parses(("client-secret")@, a);
                        assert(opt_kv_lines(("client-secret")@, c.client_secret)[0] == kv_line(("client-secret")@, a));
                    },
                    None => {
                        assert(opt_kv_lines(("client-secret")@, c.client_secret).len() == 0);
                    },
                }
            }
            assert(free_of_key(seq![kv_line(("redirect-uri")@, c.redirect_uri)], ("refresh-token")@)) by {
                    assert(seq![kv_line(("redirect-uri")@, c.redirect_uri)][0] == kv_line(("redirect-uri")@, c.redirect_uri));
            }
            assert(free_of_key(opt_kv_lines(("refresh-token")@, c.refresh_token), ("refresh-token")@)) by {
                assert(opt_kv_lines(("refresh-token")@, c.refresh_token).len() == 0);
            }
            lemma_free_of_key_append(opt_kv_lines(("client-id")@, c.client_id), opt_kv_lines(("client-secret")@, c.client_secret), ("refresh-token")@);
            lemma_free_of_key_append(opt_kv_lines(("client-id")@, c.client_id) + opt_kv_lines(("client-secret")@, c.client_secret), seq![kv_line(("redirect-uri")@, c.redirect_uri)], ("refresh-token")@);
            lemma_free_of_key_append(opt_kv_lines(("client-id")@, c.client_id) + opt_kv_lines(("client-secret")@, c.client_secret) + seq![kv_line(("redirect-uri")@, c.redirect_uri)], opt_kv_lines(("refresh-token")@, c.refresh_token), ("refresh-token")@);
            assert(web_body(c) == opt_kv_lines(("client-id")@, c.client_id) + opt_kv_lines(("client-secret")@, c.client_secret) + seq![kv_line(("redirect-uri")@, c.redirect_uri)] + opt_kv_lines(("refresh-token")@, c.refresh_token));
            lemma_ini_get_free(web_body(c), ("SpotifyWeb")@, ("SpotifyWeb")@, ("refresh-token")@);
        },
    }
}

/// The requirements a written entry's key and section always meet.
pub open spec fn entry_wf(sec: Seq<char>, key: Seq<char>) -> bool {
    &&& key.len() > 0
    &&& key[0] != '['
    &&& (forall|i: int| 0 <= i < key.len() ==> key[i] != '=' && key[i] != '\n')
    &&& (forall|i: int| 0 <= i < sec.len() ==> sec[i] != '\n')
}

/// What parsing finds for `key` in a file holding exactly the header
/// of `sec` and one written entry `key=val`.
pub open spec fn written_entry(sec: Seq<char>, key: Seq<char>, val: Seq<char>) -> Option<
    Seq<char>,
> {
    ini_get(
        split_on(
            crate::text::join_with(seq![seq!['['] + sec + seq![']'], kv_line(key, val)], '\n'),
            '\n',
        ),
        Seq::<char>::empty(),
        sec,
        key,
    )
}

/// A decimal rendering holds only digits and a possible leading `-`,
/// so it never breaks a line.
proof fn lemma_format_i32_single_line(n: int)
    ensures
        forall|i: int| 0 <= i < format_i32_spec(n).len() ==> format_i32_spec(n)[i] != '\n',
{
    let s = format_i32_spec(n);
    if n < 0 {
        crate::text::lemma_fmt_nat_digits((-n) as nat);
        assert forall|i: int| 0 <= i < s.len() implies s[i] != '\n' by {
            if i > 0 {
                assert(s[i] == fmt_nat((-n) as nat)[i - 1]);
                assert(crate::text::is_digit(s[i]));
            }
        }
    } else {
        crate::text::lemma_fmt_nat_digits(n as nat);
        assert forall|i: int| 0 <= i < s.len() implies s[i] != '\n' by {
            assert(crate::text::is_digit(s[i]));
        }
    }
}

/// A boolean written to the settings file parses back to itself.
pub proof fn lemma_bool_file_round_trip(sec: Seq<char>, key: Seq<char>, b: bool)
    requires
        entry_wf(sec, key),
    ensures
        written_entry(sec, key, format_bool_spec(b)) matches Some(v) && parse_bool_spec(v)
            == Some(b),
{
    reveal_strlit("true");
    reveal_strlit("false");
    lemma_file_entry_round_trip(sec, key, format_bool_spec(b));
    crate::text::lemma_bool_round_trip(b);
}

/// A 32-bit integer written to the settings file parses back to
/// itself.
pub proof fn lemma_i32_file_round_trip(sec: Seq<char>, key: Seq<char>, n: i32)
    requires
        entry_wf(sec, key),
    ensures
        written_entry(sec, key, format_i32_spec(n as int)) matches Some(v) && parse_i32_spec(v)
            == Some(n),
{
    lemma_format_i32_single_line(n as int);
    lemma_file_entry_round_trip(sec, key, format_i32_spec(n as int));
    crate::text::lemma_i32_round_trip(n);
}

/// A single-line string written to the settings file parses back
/// character for character.
pub proof fn lemma_string_file_round_trip(sec: Seq<char>, key: Seq<char>, val: Seq<char>)
    requires
        entry_wf(sec, key),
        forall|i: int| 0 <= i < val.len() ==> val[i] != '\n',
    ensures
        written_entry(sec, key, val) == Some(val),
{
    lemma_file_entry_round_trip(sec, key, val);
}

/// A backend name written to the settings file parses back to the
/// same backend.
pub proof fn lemma_api_file_round_trip(sec: Seq<char>, key: Seq<char>, a: API)
    requires
        entry_wf(sec, key),
    ensures
        written_entry(sec, key, crate::api::api_name(a)) matches Some(v) && api_of_name(v)
            == Some(a),
{
    reveal_strlit("MPRIS");
    reveal_strlit("Windows");
    reveal_strlit("MacOS");
    reveal_strlit("SpotifyWeb");
    lemma_file_entry_round_trip(sec, key, crate::api::api_name(a));
    crate::api::lemma_api_name_round_trip(a);
}

/// A player name written to the settings file parses back to the
/// same player.
pub proof fn lemma_player_file_round_trip(sec: Seq<char>, key: Seq<char>, p: Player)
    requires
        entry_wf(sec, key),
    ensures
        written_entry(sec, key, crate::player::player_name(p)) matches Some(v) && player_of_name(
            v,
        ) == Some(p),
{
    reveal_strlit("Mpv");
    reveal_strlit("External");
    lemma_file_entry_round_trip(sec, key, crate::player::player_name(p));
    crate::player::lemma_player_name_round_trip(p);
}

/// A single-line text: what the file format can hold in one value.
pub open spec fn single_line(s: Seq<char>) -> bool {
    forall|i: int| 0 <= i < s.len() ==> s[i] != '\n'
}

pub open spec fn opt_single_line(o: Option<Seq<char>>) -> bool {
    match o {
        Some(s) => single_line(s),
        None => true,
    }
}

/// Nothing the writer emits ever holds a newline.
proof fn lemma_lines_single(c: ConfigV)
    requires
        single_line(c.mpv_flags),
        single_line(c.redirect_uri),
        opt_single_line(c.client_id),
        opt_single_line(c.client_secret),
        opt_single_line(c.refresh_token),
    ensures
        crate::text::all_sep_free(config_lines(c), '\n'),
{
    reveal_strlit("[Defaults]");
    reveal_strlit("[SpotifyWeb]");
    reveal_strlit("debug");
    reveal_strlit("lyrics-enabled");
    reveal_strlit("fullscreen");
    reveal_strlit("dark-mode");
    reveal_strlit("stay-on-top");
    reveal_strlit("api");
    reveal_strlit("player");
    reveal_strlit("audiosync");
    reveal_strlit("audiosync-calibration-ms");
    reveal_strlit("player-flags");
    reveal_strlit("client-id");
    reveal_strlit("client-secret");
    reveal_strlit("redirect-uri");
    reveal_strlit("refresh-token");
    reveal_strlit("true");
    reveal_strlit("false");
    assert(single_line(format_bool_spec(true)));
    assert(single_line(format_bool_spec(false)));
    lemma_format_i32_single_line(c.audiosync_calibration as int);
    lemma_kv_line_sep_free(("debug")@, format_bool_spec(c.debug));
    lemma_kv_line_sep_free(("lyrics-enabled")@, format_bool_spec(c.lyrics));
    lemma_kv_line_sep_free(("fullscreen")@, format_bool_spec(c.fullscreen));
    lemma_kv_line_sep_free(("dark-mode")@, format_bool_spec(c.dark_mode));
    lemma_kv_line_sep_free(("stay-on-top")@, format_bool_spec(c.stay_on_top));
    lemma_kv_line_sep_free(("audiosync")@, format_bool_spec(c.audiosync));
    lemma_kv_line_sep_free(
        ("audiosync-calibration-ms")@,
        format_i32_spec(c.audiosync_calibration as int),
    );
    lemma_kv_line_sep_free(("player-flags")@, c.mpv_flags);
    lemma_kv_line_sep_free(("redirect-uri")@, c.redirect_uri);
    let b1 = seq![
        kv_line(("debug")@, format_bool_spec(c.debug)),
        kv_line(("lyrics-enabled")@, format_bool_spec(c.lyrics)),
        kv_line(("fullscreen")@, format_bool_spec(c.fullscreen)),
        kv_line(("dark-mode")@, format_bool_spec(c.dark_mode)),
        kv_line(("stay-on-top")@, format_bool_spec(c.stay_on_top)),
    ];
    let b2 = seq![
        kv_line(("audiosync")@, format_bool_spec(c.audiosync)),
        kv_line(("audiosync-calibration-ms")@, format_i32_spec(c.audiosync_calibration as int)),
        kv_line(("player-flags")@, c.mpv_flags),
    ];
    let hd = seq![("[Defaults]")@];
    let hs = seq![("[SpotifyWeb]")@];
    assert(crate::text::all_sep_free(hd, '\n'));
    assert(crate::text::all_sep_free(hs, '\n'));
    assert(crate::text::all_sep_free(b1, '\n'));
    assert(crate::text::all_sep_free(b2, '\n'));
    assert(crate::text::all_sep_free(api_lines(c.api), '\n')) by {
        match c.api {
            Some(a) => {
                assert(single_line(crate::api::api_name(a))) by {
                    reveal_strlit("MPRIS");
                    reveal_strlit("Windows");
                    reveal_strlit("MacOS");
                    reveal_strlit("SpotifyWeb");
                }
                lemma_kv_line_sep_free(("api")@, crate::api::api_name(a));
                assert(api_lines(c.api)[0] == kv_line(("api")@, crate::api::api_name(a)));
            },
            None => {
                assert(api_lines(c.api).len() == 0);
            },
        }
    }
    assert(crate::text::all_sep_free(player_lines(c.player), '\n')) by {
        match c.player {
            Some(p) => {
                assert(single_line(crate::player::player_name(p))) by {
                    reveal_strlit("Mpv");
                    reveal_strlit("External");
                }
                lemma_kv_line_sep_free(("player")@, crate::player::player_name(p));
                assert(player_lines(c.player)[0] == kv_line(
                    ("player")@,
                    crate::player::player_name(p),
                ));
            },
            None => {
                assert(player_lines(c.player).len() == 0);
            },
        }
    }
    assert(crate::text::all_sep_free(opt_kv_lines(("client-id")@, c.client_id), '\n')) by {
        match c.client_id {
            Some(v) => {
                lemma_kv_line_sep_free(("client-id")@, v);
                assert(opt_kv_lines(("client-id")@, c.client_id)[0] == kv_line(("client-id")@, v));
            },
            None => {
                assert(opt_kv_lines(("client-id")@, c.client_id).len() == 0);
            },
        }
    }
    assert(crate::text::all_sep_free(opt_kv_lines(("client-secret")@, c.client_secret), '\n'))
        by {
        match c.client_secret {
            Some(v) => {
                lemma_kv_line_sep_free(("client-secret")@, v);
                assert(opt_kv_lines(("client-secret")@, c.client_secret)[0] == kv_line(
                    ("client-secret")@,
                    v,
                ));
            },
            None => {
                assert(opt_kv_lines(("client-secret")@, c.client_secret).len() == 0);
            },
        }
    }
    assert(crate::text::all_sep_free(opt_kv_lines(("refresh-token")@, c.refresh_token), '\n'))
        by {
        match c.refresh_token {
            Some(v) => {
                lemma_kv_line_sep_free(("refresh-token")@, v);
                assert(opt_kv_lines(("refresh-token")@, c.refresh_token)[0] == kv_line(
                    ("refresh-token")@,
                    v,
                ));
            },
            None => {
                assert(opt_kv_lines(("refresh-token")@, c.refresh_token).len() == 0);
            },
        }
    }
    let r1 = seq![kv_line(("redirect-uri")@, c.redirect_uri)];
    assert(crate::text::all_sep_free(r1, '\n'));
    crate::text::lemma_all_sep_free_append(hd, b1, '\n');
    crate::text::lemma_all_sep_free_append(hd + b1, api_lines(c.api), '\n');
    crate::text::lemma_all_sep_free_append(hd + b1 + api_lines(c.api), player_lines(c.player), '\n');
    crate::text::lemma_all_sep_free_append(
        hd + b1 + api_lines(c.api) + player_lines(c.player),
        b2,
        '\n',
    );
    assert(defaults_lines_of(c) =~= hd + b1 + api_lines(c.api) + player_lines(c.player) + b2);
    crate::text::lemma_all_sep_free_append(hs, opt_kv_lines(("client-id")@, c.client_id), '\n');
    crate::text::lemma_all_sep_free_append(
        hs + opt_kv_lines(("client-id")@, c.client_id),
        opt_kv_lines(("client-secret")@, c.client_secret),
        '\n',
    );
    crate::text::lemma_all_sep_free_append(
        hs + opt_kv_lines(("client-id")@, c.client_id) + opt_kv_lines(
            ("client-secret")@,
            c.client_secret,
        ),
        r1,
        '\n',
    );
    crate::text::lemma_all_sep_free_append(
        hs + opt_kv_lines(("client-id")@, c.client_id) + opt_kv_lines(
            ("client-secret")@,
            c.client_secret,
        ) + r1,
        opt_kv_lines(("refresh-token")@, c.refresh_token),
        '\n',
    );
    assert(web_lines_of(c) =~= hs + opt_kv_lines(("client-id")@, c.client_id) + opt_kv_lines(
        ("client-secret")@,
        c.client_secret,
    ) + r1 + opt_kv_lines(("refresh-token")@, c.refresh_token));
    crate::text::lemma_all_sep_free_append(defaults_lines_of(c), web_lines_of(c), '\n');
}

/// The whole-file round trip: a configuration written with `to_ini`
/// and resolved again from the parsed file alone, with nothing on the
/// command line, is itself.  The written strings must be single-line,
/// as the file format requires.
#[verifier::rlimit(100)]
pub proof fn lemma_config_round_trip(c: ConfigV)
    requires
        single_line(c.mpv_flags),
        single_line(c.redirect_uri),
        opt_single_line(c.client_id),
        opt_single_line(c.client_secret),
        opt_single_line(c.refresh_token),
    ensures
        resolve_spec(
            empty_cli(),
            file_values_of(crate::text::join_with(config_lines(c), '\n')),
        ) == Ok::<ConfigV, ErrorV>(c),
{
    let text = crate::text::join_with(config_lines(c), '\n');
    lemma_lines_single(c);
    assert(config_lines(c).len() >= 1);
    crate::text::lemma_split_join(config_lines(c), '\n');
    assert(split_on(text, '\n') == config_lines(c));
    lemma_section_split(c);
    lemma_lookup_debug(c);
    lemma_lookup_lyrics_enabled(c);
    lemma_lookup_fullscreen(c);
    lemma_lookup_dark_mode(c);
    lemma_lookup_stay_on_top(c);
    lemma_lookup_audiosync(c);
    lemma_lookup_audiosync_calibration_ms(c);
    lemma_lookup_player_flags(c);
    lemma_lookup_api(c);
    lemma_lookup_player(c);
    lemma_lookup_client_id(c);
    lemma_lookup_client_secret(c);
    lemma_lookup_redirect_uri(c);
    lemma_lookup_refresh_token(c);
    let fv = file_values_of(text);
    assert(fv.debug == Some(format_bool_spec(c.debug)));
    assert(fv.lyrics == Some(format_bool_spec(c.lyrics)));
    assert(fv.fullscreen == Some(format_bool_spec(c.fullscreen)));
    assert(fv.dark_mode == Some(format_bool_spec(c.dark_mode)));
    assert(fv.stay_on_top == Some(format_bool_spec(c.stay_on_top)));
    assert(fv.audiosync == Some(format_bool_spec(c.audiosync)));
    assert(fv.audiosync_calibration == Some(format_i32_spec(c.audiosync_calibration as int)));
    assert(fv.mpv_flags == Some(c.mpv_flags));
    assert(fv.api == match c.api {
        Some(a) => Some(crate::api::api_name(a)),
        None => None,
    });
    assert(fv.player == match c.player {
        Some(p) => Some(crate::player::player_name(p)),
        None => None,
    });
    assert(fv.client_id == c.client_id);
    assert(fv.client_secret == c.client_secret);
    assert(fv.redirect_uri == Some(c.redirect_uri));
    assert(fv.refresh_token == c.refresh_token);
    crate::text::lemma_bool_round_trip(true);
    crate::text::lemma_bool_round_trip(false);
    crate::text::lemma_i32_round_trip(c.audiosync_calibration);
    match c.api {
        Some(a) => {
            crate::api::lemma_api_name_round_trip(a);
        },
        None => {},
    }
    match c.player {
        Some(p) => {
            crate::player::lemma_player_name_round_trip(p);
        },
        None => {},
    }
    assert(resolve_spec(empty_cli(), fv) == Ok::<ConfigV, ErrorV>(c));
}

// ---------------------------------------------------------------------
// The precedence and fatality laws
// ---------------------------------------------------------------------

/// Precedence for boolean fields: the resolved value is the CLI value
/// if present, else the parsed file value if present, else the
/// default.
pub proof fn lemma_precedence_bool(
    cli: Option<bool>,
    file: Option<Seq<char>>,
    dflt: bool,
    field: Seq<char>,
)
    ensures
        cli matches Some(v) ==> resolve_bool_spec(cli, file, dflt, field) == Ok::<
            bool,
            ErrorV,
        >(v),
        cli is None ==> (file matches Some(s) ==> (parse_bool_spec(s) matches Some(v)
            ==> resolve_bool_spec(cli, file, dflt, field) == Ok::<bool, ErrorV>(v))),
        cli is None && file is None ==> resolve_bool_spec(cli, file, dflt, field) == Ok::<
            bool,
            ErrorV,
        >(dflt),
{
}

/// Precedence for 32-bit integer fields.
pub proof fn lemma_precedence_i32(
    cli: Option<Seq<char>>,
    file: Option<Seq<char>>,
    dflt: i32,
    field: Seq<char>,
)
    ensures
        cli matches Some(s) ==> (parse_i32_spec(s) matches Some(v) ==> resolve_i32_spec(
            cli,
            file,
            dflt,
            field,
        ) == Ok::<i32, ErrorV>(v)),
        cli is None ==> (file matches Some(s) ==> (parse_i32_spec(s) matches Some(v)
            ==> resolve_i32_spec(cli, file, dflt, field) == Ok::<i32, ErrorV>(v))),
        cli is None && file is None ==> resolve_i32_spec(cli, file, dflt, field) == Ok::<
            i32,
            ErrorV,
        >(dflt),
{
}

/// Precedence for string fields, which parse as themselves and can
/// never fail.
pub proof fn lemma_precedence_string(
    cli: Option<Seq<char>>,
    file: Option<Seq<char>>,
    dflt: Seq<char>,
)
    ensures
        cli matches Some(s) ==> resolve_string_spec(cli, file, dflt) == s,
        cli is None ==> (file matches Some(s) ==> resolve_string_spec(cli, file, dflt) == s),
        cli is None && file is None ==> resolve_string_spec(cli, file, dflt) == dflt,
{
}

/// Precedence for enumerated fields, `None` when given nowhere.
pub proof fn lemma_precedence_api(
    cli: Option<Seq<char>>,
    file: Option<Seq<char>>,
    field: Seq<char>,
)
    ensures
        cli matches Some(s) ==> (api_of_name(s) matches Some(a) ==> resolve_api_spec(
            cli,
            file,
            field,
        ) == Ok::<Option<API>, ErrorV>(Some(a))),
        cli is None ==> (file matches Some(s) ==> (api_of_name(s) matches Some(a)
            ==> resolve_api_spec(cli, file, field) == Ok::<Option<API>, ErrorV>(Some(a)))),
        cli is None && file is None ==> resolve_api_spec(cli, file, field) == Ok::<
            Option<API>,
            ErrorV,
        >(None),
{
}

/// A present value that does not parse is fatal at either priority
/// level: it becomes `ConfigParse` for that field and raw text, and
/// never falls through to a lower-priority source.
pub proof fn lemma_invalid_value_is_fatal(
    cli: Option<Seq<char>>,
    file: Option<Seq<char>>,
    dflt: i32,
    field: Seq<char>,
)
    ensures
        cli matches Some(s) ==> (parse_i32_spec(s) is None ==> resolve_i32_spec(
            cli,
            file,
            dflt,
            field,
        ) == Err::<i32, ErrorV>(ErrorV::ConfigParse(field, s))),
        cli is None ==> (file matches Some(s) ==> (parse_i32_spec(s) is None
            ==> resolve_i32_spec(cli, file, dflt, field) == Err::<i32, ErrorV>(
            ErrorV::ConfigParse(field, s)))),
{
}

/// The same fatality for booleans: a file value that is neither
/// `true` nor `false` surfaces as `ConfigParse` unless the CLI
/// overrides the field.
pub proof fn lemma_invalid_bool_is_fatal(
    cli: Option<bool>,
    file: Option<Seq<char>>,
    dflt: bool,
    field: Seq<char>,
)
    ensures
        cli is None ==> (file matches Some(s) ==> (parse_bool_spec(s) is None
            ==> resolve_bool_spec(cli, file, dflt, field) == Err::<bool, ErrorV>(
            ErrorV::ConfigParse(field, s)))),
{
}

} // verus!

