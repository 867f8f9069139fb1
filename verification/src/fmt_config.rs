//! The formatter's configuration as the command line sets and prints it:
//! `--config key=value,...` overrides options, later settings win, and
//! `--print-config current` prints the resulting options in TOML.
use vstd::prelude::*;
use crate::decimal::{decimal_string, decimal_text};
use crate::text::{concat3, split_by_char, split_char, str_eq, strings_view, strip_prefix};

verus! {

/// Whether the output uses colours.
#[derive(Clone, Copy, PartialEq, Eq, Structural)]
pub enum Color {
    Always,
    Never,
    Auto,
}

/// The edition of the language that the code is parsed as.
#[derive(Clone, Copy, PartialEq, Eq, Structural)]
pub enum Edition {
    Edition2015,
    Edition2018,
    Edition2021,
}

/// The options of the formatter.
#[derive(Clone, Copy, PartialEq, Eq, Structural)]
pub struct FmtConfig {
    pub max_width: u64,
    pub color: Color,
    pub edition: Edition,
    pub format_strings: bool,
}

/// The options that hold when nothing sets them.
pub open spec fn default_config() -> FmtConfig {
    FmtConfig { max_width: 100, color: Color::Auto, edition: Edition::Edition2015, format_strings: false }
}

/// The default options.
pub fn default_fmt_config() -> (r: FmtConfig)
    ensures
        r == default_config(),
{
    FmtConfig { max_width: 100, color: Color::Auto, edition: Edition::Edition2015, format_strings: false }
}

/// The code of the ASCII lower case of `c`.
pub open spec fn ascii_lower(c: char) -> u32 {
    if 'A' <= c && c <= 'Z' {
        ((c as u32) + 32) as u32
    } else {
        c as u32
    }
}

/// Whether `a` and `b` are equal up to ASCII case.
pub open spec fn eq_ignore_case(a: Seq<char>, b: Seq<char>) -> bool {
    a.len() == b.len() && forall|i: int| 0 <= i < a.len() ==> ascii_lower(#[trigger] a[i]) == ascii_lower(b[i])
}

fn lower(c: char) -> (r: u32)
    ensures
        r == ascii_lower(c),
{
    if 'A' <= c && c <= 'Z' {
        (c as u32) + 32
    } else {
        c as u32
    }
}

/// Whether `a` and `b` are equal up to ASCII case.
pub fn eq_ignore_ascii_case(a: &str, b: &str) -> (r: bool)
    ensures
        r == eq_ignore_case(a@, b@),
{
    let n = a.unicode_len();
    if n != b.unicode_len() {
        return false;
    }
    let mut i: usize = 0;
    while i < n
        invariant
            n == a@.len(),
            n == b@.len(),
            i <= n,
            forall|k: int| 0 <= k < i ==> ascii_lower(#[trigger] a@[k]) == ascii_lower(b@[k]),
        decreases n - i,
    {
        if lower(a.get_char(i)) != lower(b.get_char(i)) {
            return false;
        }
        i = i + 1;
    }
    true
}

/// The colour setting that `v` names, in any case.
pub open spec fn parse_color(v: Seq<char>) -> Option<Color> {
    if eq_ignore_case(v, "Always"@) {
        Some(Color::Always)
    } else if eq_ignore_case(v, "Never"@) {
        Some(Color::Never)
    } else if eq_ignore_case(v, "Auto"@) {
        Some(Color::Auto)
    } else {
        None
    }
}

/// The edition that `v` names.
pub open spec fn parse_edition(v: Seq<char>) -> Option<Edition> {
    if v == "2015"@ {
        Some(Edition::Edition2015)
    } else if v == "2018"@ {
        Some(Edition::Edition2018)
    } else if v == "2021"@ {
        Some(Edition::Edition2021)
    } else {
        None
    }
}

/// The truth value that `v` names.
pub open spec fn parse_bool(v: Seq<char>) -> Option<bool> {
    if v == "true"@ {
        Some(true)
    } else if v == "false"@ {
        Some(false)
    } else {
        None
    }
}

/// The number that `v` writes in decimal digits.
pub open spec fn parse_width(v: Seq<char>) -> Option<u64> {
    crate::decimal::parse_u64_spec(v)
}

/// `cfg` with option `key` set to `value`, or `None` if there is no such
/// option or the value does not suit it.
pub open spec fn set_option(cfg: FmtConfig, key: Seq<char>, value: Seq<char>) -> Option<FmtConfig> {
    if key == "max_width"@ {
        match parse_width(value) {
            Some(w) => Some(FmtConfig { max_width: w, ..cfg }),
            None => None,
        }
    } else if key == "color"@ {
        match parse_color(value) {
            Some(c) => Some(FmtConfig { color: c, ..cfg }),
            None => None,
        }
    } else if key == "edition"@ {
        match parse_edition(value) {
            Some(e) => Some(FmtConfig { edition: e, ..cfg }),
            None => None,
        }
    } else if key == "format_strings"@ {
        match parse_bool(value) {
            Some(b) => Some(FmtConfig { format_strings: b, ..cfg }),
            None => None,
        }
    } else {
        None
    }
}

/// The message for a setting that does not apply.
pub open spec fn bad_setting_msg(key: Seq<char>, value: Seq<char>) -> Seq<char> {
    "invalid configuration `"@ + key + "="@ + value + "`"@
}

/// The message for a `--config` value that is not a list of `key=value`.
pub open spec fn malformed_msg(setting: Seq<char>) -> Seq<char> {
    "invalid key=val pair: `"@ + setting + "`"@
}

/// `cfg` after the settings `items` (each `key=value`), applied in order; or
/// the message of the first that does not apply.
pub open spec fn apply_settings(cfg: FmtConfig, items: Seq<Seq<char>>) -> Result<FmtConfig, Seq<char>>
    decreases items.len(),
{
    if items.len() == 0 {
        Ok(cfg)
    } else {
        let it = items[0];
        let kv = split_char(it, '=');
        if kv.len() != 2 {
            Err(malformed_msg(it))
        } else {
            match set_option(cfg, kv[0], kv[1]) {
                Some(next) => apply_settings(next, items.drop_first()),
                None => Err(bad_setting_msg(kv[0], kv[1])),
            }
        }
    }
}

/// `cfg` after the value of one `--config` flag: settings separated by
/// commas.
pub open spec fn apply_inline(cfg: FmtConfig, value: Seq<char>) -> Result<FmtConfig, Seq<char>> {
    apply_settings(cfg, split_char(value, ','))
}

/// Sets option `key` to `value`.
pub fn set_fmt_option(cfg: FmtConfig, key: &str, value: &str) -> (r: Option<FmtConfig>)
    ensures
        r == set_option(cfg, key@, value@),
{
    proof {
        reveal_strlit("max_width");
        reveal_strlit("color");
        reveal_strlit("edition");
        reveal_strlit("format_strings");
    }
    if str_eq(key, "max_width") {
        match crate::decimal::parse_u64(value) {
            Some(w) => Some(FmtConfig { max_width: w, ..cfg }),
            None => None,
        }
    } else if str_eq(key, "color") {
        if eq_ignore_ascii_case(value, "Always") {
            Some(FmtConfig { color: Color::Always, ..cfg })
        } else if eq_ignore_ascii_case(value, "Never") {
            Some(FmtConfig { color: Color::Never, ..cfg })
        } else if eq_ignore_ascii_case(value, "Auto") {
            Some(FmtConfig { color: Color::Auto, ..cfg })
        } else {
            None
        }
    } else if str_eq(key, "edition") {
        if str_eq(value, "2015") {
            Some(FmtConfig { edition: Edition::Edition2015, ..cfg })
        } else if str_eq(value, "2018") {
            Some(FmtConfig { edition: Edition::Edition2018, ..cfg })
        } else if str_eq(value, "2021") {
            Some(FmtConfig { edition: Edition::Edition2021, ..cfg })
        } else {
            None
        }
    } else if str_eq(key, "format_strings") {
        if str_eq(value, "true") {
            Some(FmtConfig { format_strings: true, ..cfg })
        } else if str_eq(value, "false") {
            Some(FmtConfig { format_strings: false, ..cfg })
        } else {
            None
        }
    } else {
        None
    }
}

/// Applies the value of one `--config` flag to `cfg`.
pub fn apply_inline_config(cfg: FmtConfig, value: &str) -> (r: Result<FmtConfig, String>)
    ensures
        match r {
            Ok(c) => apply_inline(cfg, value@) == Ok::<FmtConfig, Seq<char>>(c),
            Err(e) => apply_inline(cfg, value@) == Err::<FmtConfig, Seq<char>>(e@),
        },
{
    let items = split_by_char(value, ',');
    let ghost its = strings_view(items@);
    let mut cur = cfg;
    let mut i: usize = 0;
    assert(its.skip(0) =~= its);
    while i < items.len()
        invariant
            its == strings_view(items@),
            its == split_char(value@, ','),
            i <= items.len(),
            apply_inline(cfg, value@) == apply_settings(cur, its.skip(i as int)),
        decreases items.len() - i,
    {
        let it = items[i].as_str();
        assert(its.skip(i as int)[0] == it@);
        assert(its.skip(i as int).drop_first() =~= its.skip(i + 1));
        let kv = split_by_char(it, '=');
        if kv.len() != 2 {
            return Err(concat3("invalid key=val pair: `", it, "`"));
        }
        assert(strings_view(kv@)[0] == kv[0]@);
        assert(strings_view(kv@)[1] == kv[1]@);
        match set_fmt_option(cur, kv[0].as_str(), kv[1].as_str()) {
            Some(next) => {
                cur = next;
            },
            None => {
                let mut msg = concat3("invalid configuration `", kv[0].as_str(), "=");
                msg.append(kv[1].as_str());
                msg.append("`");
                return Err(msg);
            },
        }
        i = i + 1;
    }
    assert(its.skip(items.len() as int) =~= Seq::<Seq<char>>::empty());
    Ok(cur)
}

/// How a colour setting is written in TOML.
pub open spec fn color_text(c: Color) -> Seq<char> {
    match c {
        Color::Always => "\"Always\""@,
        Color::Never => "\"Never\""@,
        Color::Auto => "\"Auto\""@,
    }
}

/// How an edition is written in TOML.
pub open spec fn edition_text(e: Edition) -> Seq<char> {
    match e {
        Edition::Edition2015 => "\"2015\""@,
        Edition::Edition2018 => "\"2018\""@,
        Edition::Edition2021 => "\"2021\""@,
    }
}

/// How a truth value is written in TOML.
pub open spec fn bool_text(b: bool) -> Seq<char> {
    if b {
        "true"@
    } else {
        "false"@
    }
}

/// How the options are printed: one `name = value` line each.
pub open spec fn render_spec(cfg: FmtConfig, width: Seq<char>) -> Seq<char> {
    "max_width = "@ + width + "\n"@ + "color = "@ + color_text(cfg.color) + "\n"@ + "edition = "@
        + edition_text(cfg.edition) + "\n"@ + "format_strings = "@ + bool_text(cfg.format_strings)
        + "\n"@
}


/// Prints the options, one `name = value` line each.
pub fn render_config(cfg: FmtConfig) -> (r: String)
    ensures
        r@ == render_spec(cfg, decimal_text(cfg.max_width as nat)),
{
    let width = decimal_string(cfg.max_width);
    let mut s = concat3("max_width = ", width.as_str(), "\n");
    s.append("color = ");
    match cfg.color {
        Color::Always => s.append("\"Always\""),
        Color::Never => s.append("\"Never\""),
        Color::Auto => s.append("\"Auto\""),
    }
    s.append("\n");
    s.append("edition = ");
    match cfg.edition {
        Edition::Edition2015 => s.append("\"2015\""),
        Edition::Edition2018 => s.append("\"2018\""),
        Edition::Edition2021 => s.append("\"2021\""),
    }
    s.append("\n");
    s.append("format_strings = ");
    if cfg.format_strings {
        s.append("true");
    } else {
        s.append("false");
    }
    s.append("\n");
    s
}

/// The message for a flag that lacks its value.
pub open spec fn missing_msg(flag: Seq<char>) -> Seq<char> {
    "Argument to option '"@ + flag + "' missing"@
}

/// What the arguments from `i` on ask for, given what the arguments before
/// asked for: the first `--print-config` kind, and the values of the
/// `--config` flags in order (`--config VALUE` or `--config=VALUE`); other
/// arguments are paths.
pub open spec fn scan_args(
    args: Seq<Seq<char>>,
    i: int,
    print: Option<Seq<char>>,
    configs: Seq<Seq<char>>,
) -> Result<(Option<Seq<char>>, Seq<Seq<char>>), Seq<char>>
    decreases args.len() - i,
{
    if i < 0 || i >= args.len() {
        Ok((print, configs))
    } else if args[i] == "--print-config"@ {
        if i + 1 >= args.len() {
            Err(missing_msg("print-config"@))
        } else {
            scan_args(
                args,
                i + 2,
                if print is None {
                    Some(args[i + 1])
                } else {
                    print
                },
                configs,
            )
        }
    } else if args[i] == "--config"@ {
        if i + 1 >= args.len() {
            Err(missing_msg("config"@))
        } else {
            scan_args(args, i + 2, print, configs.push(args[i + 1]))
        }
    } else if "--config="@.is_prefix_of(args[i]) {
        scan_args(args, i + 1, print, configs.push(args[i].skip(9)))
    } else {
        scan_args(args, i + 1, print, configs)
    }
}

/// `cfg` after the values of the `--config` flags `cs`, in order.
pub open spec fn apply_all(cfg: FmtConfig, cs: Seq<Seq<char>>) -> Result<FmtConfig, Seq<char>>
    decreases cs.len(),
{
    if cs.len() == 0 {
        Ok(cfg)
    } else {
        match apply_inline(cfg, cs[0]) {
            Ok(next) => apply_all(next, cs.drop_first()),
            Err(e) => Err(e),
        }
    }
}

/// What `--print-config` prints for the arguments `args`: the default
/// options for `default`; for `current`, the options that the `--config`
/// flags set over the defaults.
pub open spec fn print_config_spec(args: Seq<Seq<char>>) -> Result<Seq<char>, Seq<char>> {
    match scan_args(args, 0, None, Seq::empty()) {
        Err(e) => Err(e),
        Ok((print, cs)) => match print {
            None => Err("no `--print-config` given"@),
            Some(kind) => if kind == "default"@ {
                Ok(render_spec(default_config(), decimal_text(100)))
            } else if kind == "current"@ {
                match apply_all(default_config(), cs) {
                    Ok(c) => Ok(render_spec(c, decimal_text(c.max_width as nat))),
                    Err(e) => Err(e),
                }
            } else {
                Err("Unknown print-config option"@)
            },
        },
    }
}

/// Runs `--print-config` with the command-line arguments `args`: the text
/// printed, or the error message.
pub fn print_config(args: &Vec<String>) -> (r: Result<String, String>)
    ensures
        match r {
            Ok(out) => print_config_spec(strings_view(args@)) == Ok::<Seq<char>, Seq<char>>(out@),
            Err(e) => print_config_spec(strings_view(args@)) == Err::<Seq<char>, Seq<char>>(e@),
        },
{
    let ghost a = strings_view(args@);
    let n = args.len();
    let mut print: Option<String> = None;
    let mut configs: Vec<String> = Vec::new();
    let mut i: usize = 0;
    proof {
        reveal_strlit("--print-config");
        reveal_strlit("--config");
        reveal_strlit("--config=");
        assert(strings_view(configs@) =~= Seq::<Seq<char>>::empty());
    }
    while i < n
        invariant
            n == args.len(),
            a == strings_view(args@),
            i <= n + 1,
            scan_args(a, 0, None, Seq::empty()) == scan_args(
                a,
                i as int,
                match print {
                    Some(p) => Some(p@),
                    None => None,
                },
                strings_view(configs@),
            ),
        decreases n + 1 - i,
    {
        let arg = args[i].as_str();
        assert(a[i as int] == arg@);
        proof {
            reveal_strlit("--print-config");
            reveal_strlit("--config");
            reveal_strlit("--config=");
        }
        if str_eq(arg, "--print-config") {
            if i + 1 >= n {
                return Err(concat3("Argument to option '", "print-config", "' missing"));
            }
            assert(a[i + 1] == args[i + 1]@);
            if print.is_none() {
                print = Some(String::from_str(args[i + 1].as_str()));
            }
            i = i + 2;
        } else if str_eq(arg, "--config") {
            if i + 1 >= n {
                return Err(concat3("Argument to option '", "config", "' missing"));
            }
            assert(a[i + 1] == args[i + 1]@);
            let ghost prev = configs@;
            configs.push(String::from_str(args[i + 1].as_str()));
            assert(strings_view(configs@) =~= strings_view(prev).push(a[i + 1]));
            i = i + 2;
        } else {
            match strip_prefix(arg, "--config=") {
                Some(v) => {
                    let ghost prev = configs@;
                    configs.push(v);
                    assert(strings_view(configs@) =~= strings_view(prev).push(a[i as int].skip(9)));
                },
                None => {},
            }
            i = i + 1;
        }
    }
    let kind = match print {
        None => {
            return Err(String::from_str("no `--print-config` given"));
        },
        Some(k) => k,
    };
    proof {
        reveal_strlit("default");
        reveal_strlit("current");
    }
    if str_eq(kind.as_str(), "default") {
        return Ok(render_config(default_fmt_config()));
    }
    if !str_eq(kind.as_str(), "current") {
        return Err(String::from_str("Unknown print-config option"));
    }
    let ghost cs = strings_view(configs@);
    assert(scan_args(a, i as int, Some(kind@), cs) == Ok::<
        (Option<Seq<char>>, Seq<Seq<char>>),
        Seq<char>,
    >((Some(kind@), cs)));
    let mut cur = default_fmt_config();
    let mut j: usize = 0;
    assert(cs.skip(0) =~= cs);
    while j < configs.len()
        invariant
            cs == strings_view(configs@),
            a == strings_view(args@),
            scan_args(a, 0, None, Seq::empty()) == Ok::<
                (Option<Seq<char>>, Seq<Seq<char>>),
                Seq<char>,
            >((Some(kind@), cs)),
            kind@ == "current"@,
            kind@ != "default"@,
            j <= configs.len(),
            apply_all(default_config(), cs) == apply_all(cur, cs.skip(j as int)),
        decreases configs.len() - j,
    {
        assert(cs.skip(j as int)[0] == configs[j as int]@);
        assert(cs.skip(j as int).drop_first() =~= cs.skip(j + 1));
        match apply_inline_config(cur, configs[j].as_str()) {
            Ok(c) => {
                cur = c;
            },
            Err(e) => {
                assert(cs.skip(j as int).len() > 0);
                assert(apply_all(cur, cs.skip(j as int)) == Err::<FmtConfig, Seq<char>>(e@));
                return Err(e);
            },
        }
        j = j + 1;
    }
    assert(cs.skip(configs.len() as int) =~= Seq::<Seq<char>>::empty());
    Ok(render_config(cur))
}


/// Several `--config` flags act as their settings applied one after the
/// other: the flags `cs1` then `cs2` give what `cs2` makes of the result of
/// `cs1`.
pub proof fn lemma_apply_all_append(cfg: FmtConfig, cs1: Seq<Seq<char>>, cs2: Seq<Seq<char>>)
    ensures
        apply_all(cfg, cs1 + cs2) == match apply_all(cfg, cs1) {
            Ok(c) => apply_all(c, cs2),
            Err(e) => Err(e),
        },
    decreases cs1.len(),
{
    if cs1.len() > 0 {
        assert((cs1 + cs2)[0] == cs1[0]);
        assert((cs1 + cs2).drop_first() =~= cs1.drop_first() + cs2);
        match apply_inline(cfg, cs1[0]) {
            Ok(next) => {
                lemma_apply_all_append(next, cs1.drop_first(), cs2);
            },
            Err(_) => {},
        }
    } else {
        assert(cs1 + cs2 =~= cs2);
    }
}

/// A later setting of an option overrides an earlier one: setting `key`
/// to `v1` and then to `v2` is setting it to `v2`.
pub proof fn lemma_later_setting_wins(cfg: FmtConfig, key: Seq<char>, v1: Seq<char>, v2: Seq<char>)
    requires
        set_option(cfg, key, v1) is Some,
    ensures
        set_option(set_option(cfg, key, v1).unwrap(), key, v2) == set_option(cfg, key, v2),
{
}

/// Setting the edition and printing the options shows the edition that was
/// set: each of `2015`, `2018` and `2021` is accepted, changes the edition
/// and nothing else, and prints back as itself; no other value is accepted.
pub proof fn lemma_edition_round_trip(cfg: FmtConfig, v: Seq<char>, width: Seq<char>)
    ensures
        set_option(cfg, "edition"@, v) is Some <==> (v == "2015"@ || v == "2018"@ || v == "2021"@),
        set_option(cfg, "edition"@, v) matches Some(c) ==> {
            &&& edition_text(c.edition) == "\""@ + v + "\""@
            &&& c.max_width == cfg.max_width && c.color == cfg.color && c.format_strings == cfg.format_strings
            &&& render_spec(c, width) == "max_width = "@ + width + "\n"@ + "color = "@ + color_text(
                cfg.color,
            ) + "\n"@ + "edition = \""@ + v + "\"\n"@ + "format_strings = "@ + bool_text(
                cfg.format_strings,
            ) + "\n"@
        },
{
    reveal_strlit("max_width");
    reveal_strlit("color");
    reveal_strlit("edition");
    reveal_strlit("format_strings");
    reveal_strlit("2015");
    reveal_strlit("2018");
    reveal_strlit("2021");
    reveal_strlit("\"");
    reveal_strlit("\"2015\"");
    reveal_strlit("\"2018\"");
    reveal_strlit("\"2021\"");
    reveal_strlit("edition = ");
    reveal_strlit("edition = \"");
    reveal_strlit("\"\n");
    reveal_strlit("\n");
    assert("edition"@.len() != "max_width"@.len() && "edition"@.len() != "color"@.len());
    assert("2015"@ != "2018"@) by {
        assert("2015"@[3] != "2018"@[3]);
    }
    assert("2015"@ != "2021"@) by {
        assert("2015"@[2] != "2021"@[2]);
    }
    assert("2018"@ != "2021"@) by {
        assert("2018"@[2] != "2021"@[2]);
    }
    match set_option(cfg, "edition"@, v) {
        Some(c) => {
            assert(edition_text(c.edition) =~= "\""@ + v + "\""@);
            assert("edition = "@ + edition_text(c.edition) + "\n"@ =~= "edition = \""@ + v + "\"\n"@);
            assert(render_spec(c, width) =~= "max_width = "@ + width + "\n"@ + "color = "@ + color_text(
                cfg.color,
            ) + "\n"@ + "edition = \""@ + v + "\"\n"@ + "format_strings = "@ + bool_text(
                cfg.format_strings,
            ) + "\n"@);
        },
        None => {},
    }
}

/// Setting `format_strings` prints back the value that was set.
pub proof fn lemma_format_strings_round_trip(cfg: FmtConfig, v: Seq<char>)
    ensures
        set_option(cfg, "format_strings"@, v) is Some <==> (v == "true"@ || v == "false"@),
        set_option(cfg, "format_strings"@, v) matches Some(c) ==> bool_text(c.format_strings) == v
            && c.max_width == cfg.max_width && c.color == cfg.color && c.edition == cfg.edition,
{
    reveal_strlit("max_width");
    reveal_strlit("color");
    reveal_strlit("edition");
    reveal_strlit("format_strings");
    reveal_strlit("true");
    reveal_strlit("false");
    assert("format_strings"@.len() != "max_width"@.len() && "format_strings"@.len() != "color"@.len()
        && "format_strings"@.len() != "edition"@.len());
    assert("true"@.len() != "false"@.len());
}

} // verus!
