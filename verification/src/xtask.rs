//! The command line of the `xtask` build helper: its grammar, the parser
//! that reads an argument list by that grammar, and the options that an
//! `install` command asks for.
use vstd::prelude::*;
use crate::text::{concat3, debug_quote, debug_str, starts_with_char, str_eq};

verus! {

/// Run custom build command.
pub struct Xtask {
    pub subcommand: XtaskCmd,
}

pub enum XtaskCmd {
    Install(Install),
    FuzzTests(FuzzTests),
    Release(Release),
    Promote(Promote),
    Dist(Dist),
    PublishReleaseNotes(PublishReleaseNotes),
    Metrics(Metrics),
    Bb(Bb),
}

/// Install crablang-analyzer server or editor plugin.
pub struct Install {
    pub client: bool,
    pub code_bin: Option<String>,
    pub server: bool,
    pub mimalloc: bool,
    pub jemalloc: bool,
}

pub struct FuzzTests;

pub struct Release {
    pub dry_run: bool,
}

pub struct Promote {
    pub dry_run: bool,
}

pub struct Dist {
    pub client_patch_version: Option<String>,
}

/// Read a changelog AsciiDoc file and update the GitHub Releases entry in Markdown.
pub struct PublishReleaseNotes {
    pub changelog: String,
    pub dry_run: bool,
}

pub struct Metrics {
    pub dry_run: bool,
}

/// Builds a benchmark version of crablang-analyzer and puts it into `./target`.
pub struct Bb {
    pub suffix: String,
}

/// Why an argument list was not accepted. Where `help` holds, the list asked
/// for the help text, which `msg` then holds.
pub struct FlagsError {
    pub msg: String,
    pub help: bool,
}

/// The help text of the command line.
pub const XTASK_HELP: &'static str = "xtask\n  Run custom build command.\n\nOPTIONS:\n    -h, --help\n      Prints help information.\n\nSUBCOMMANDS:\n\nxtask install\n  Install crablang-analyzer server or editor plugin.\n\n  OPTIONS:\n    --client\n      Install only VS Code plugin.\n\n    --code-bin <name>\n      One of 'code', 'code-exploration', 'code-insiders', 'codium', or 'code-oss'.\n\n    --server\n      Install only the language server.\n\n    --mimalloc\n      Use mimalloc allocator for server\n\n    --jemalloc\n      Use jemalloc allocator for server\n\n\nxtask fuzz-tests\n\n\nxtask release\n\n  OPTIONS:\n    --dry-run\n\n\nxtask promote\n\n  OPTIONS:\n    --dry-run\n\n\nxtask dist\n\n  OPTIONS:\n    --client-patch-version <version>\n\n\nxtask publish-release-notes\n  Read a changelog AsciiDoc file and update the GitHub Releases entry in Markdown.\n\n  ARGS:\n    <changelog>\n      Target changelog file.\n\n  OPTIONS:\n    --dry-run\n      Only run conversion and show the result.\n\n\nxtask metrics\n\n  OPTIONS:\n    --dry-run\n\n\nxtask bb\n  Builds a benchmark version of crablang-analyzer and puts it into `./target`.\n\n  ARGS:\n    <suffix>\n";

/// A parsed command line, with its strings as character sequences.
pub enum XtaskModel {
    Install {
        client: bool,
        code_bin: Option<Seq<char>>,
        server: bool,
        mimalloc: bool,
        jemalloc: bool,
    },
    FuzzTests,
    Release { dry_run: bool },
    Promote { dry_run: bool },
    Dist { client_patch_version: Option<Seq<char>> },
    PublishReleaseNotes { changelog: Seq<char>, dry_run: bool },
    Metrics { dry_run: bool },
    Bb { suffix: Seq<char> },
}

/// An error as its message and whether it is the help request.
pub type ErrModel = (Seq<char>, bool);

pub open spec fn opt_view(o: Option<String>) -> Option<Seq<char>> {
    match o {
        Some(s) => Some(s@),
        None => None,
    }
}

impl View for Xtask {
    type V = XtaskModel;

    open spec fn view(&self) -> XtaskModel {
        match self.subcommand {
            XtaskCmd::Install(c) => XtaskModel::Install {
                client: c.client,
                code_bin: opt_view(c.code_bin),
                server: c.server,
                mimalloc: c.mimalloc,
                jemalloc: c.jemalloc,
            },
            XtaskCmd::FuzzTests(_) => XtaskModel::FuzzTests,
            XtaskCmd::Release(c) => XtaskModel::Release { dry_run: c.dry_run },
            XtaskCmd::Promote(c) => XtaskModel::Promote { dry_run: c.dry_run },
            XtaskCmd::Dist(c) => XtaskModel::Dist {
                client_patch_version: opt_view(c.client_patch_version),
            },
            XtaskCmd::PublishReleaseNotes(c) => XtaskModel::PublishReleaseNotes {
                changelog: c.changelog@,
                dry_run: c.dry_run,
            },
            XtaskCmd::Metrics(c) => XtaskModel::Metrics { dry_run: c.dry_run },
            XtaskCmd::Bb(c) => XtaskModel::Bb { suffix: c.suffix@ },
        }
    }
}

/// What a parse gives, as values.
pub open spec fn result_view(r: Result<Xtask, FlagsError>) -> Result<XtaskModel, ErrModel> {
    match r {
        Ok(x) => Ok(x@),
        Err(e) => Err((e.msg@, e.help)),
    }
}

/// What has been read so far: the command reached (0 before any subcommand,
/// then 1 to 8 for `install`, `fuzz-tests`, `release`, `promote`, `dist`,
/// `publish-release-notes`, `metrics`, `bb`), how often each switch was
/// given, and the values given to each option and argument.
pub struct ScanModel {
    pub state: nat,
    pub client: nat,
    pub code_bin: Seq<Seq<char>>,
    pub server: nat,
    pub mimalloc: nat,
    pub jemalloc: nat,
    pub dry_run: nat,
    pub client_patch_version: Seq<Seq<char>>,
    pub changelog: Seq<Seq<char>>,
    pub suffix: Seq<Seq<char>>,
}

pub open spec fn empty_scan() -> ScanModel {
    ScanModel {
        state: 0,
        client: 0,
        code_bin: Seq::empty(),
        server: 0,
        mimalloc: 0,
        jemalloc: 0,
        dry_run: 0,
        client_patch_version: Seq::empty(),
        changelog: Seq::empty(),
        suffix: Seq::empty(),
    }
}

pub open spec fn unexpected_flag_msg(f: Seq<char>) -> Seq<char> {
    "unexpected flag: `"@ + f + "`"@
}

pub open spec fn unexpected_arg_msg(a: Seq<char>) -> Seq<char> {
    "unexpected argument: "@ + debug_str(a)
}

pub open spec fn expected_value_msg(f: Seq<char>) -> Seq<char> {
    "expected a value for `"@ + f + "`"@
}

pub open spec fn more_than_once_msg(f: Seq<char>) -> Seq<char> {
    "flag specified more than once: `"@ + f + "`"@
}

pub open spec fn required_msg(f: Seq<char>) -> Seq<char> {
    "flag is required: `"@ + f + "`"@
}

/// The command that a subcommand name selects, 0 where it names none.
pub open spec fn subcommand_state(a: Seq<char>) -> nat {
    if a == "install"@ {
        1
    } else if a == "fuzz-tests"@ {
        2
    } else if a == "release"@ {
        3
    } else if a == "promote"@ {
        4
    } else if a == "dist"@ {
        5
    } else if a == "publish-release-notes"@ {
        6
    } else if a == "metrics"@ {
        7
    } else if a == "bb"@ {
        8
    } else {
        0
    }
}

/// Reading the flag `args[i]`: the new record and how many arguments it took.
pub open spec fn on_flag(acc: ScanModel, args: Seq<Seq<char>>, i: int) -> Result<(ScanModel, int), ErrModel> {
    let f = args[i];
    if f == "--help"@ || f == "-h"@ {
        Err((XTASK_HELP@, true))
    } else if acc.state == 1 && f == "--client"@ {
        Ok((ScanModel { client: acc.client + 1, ..acc }, 1))
    } else if acc.state == 1 && f == "--code-bin"@ {
        if i + 1 < args.len() {
            Ok((ScanModel { code_bin: acc.code_bin.push(args[i + 1]), ..acc }, 2))
        } else {
            Err((expected_value_msg(f), false))
        }
    } else if acc.state == 1 && f == "--server"@ {
        Ok((ScanModel { server: acc.server + 1, ..acc }, 1))
    } else if acc.state == 1 && f == "--mimalloc"@ {
        Ok((ScanModel { mimalloc: acc.mimalloc + 1, ..acc }, 1))
    } else if acc.state == 1 && f == "--jemalloc"@ {
        Ok((ScanModel { jemalloc: acc.jemalloc + 1, ..acc }, 1))
    } else if (acc.state == 3 || acc.state == 4 || acc.state == 6 || acc.state == 7) && f
        == "--dry-run"@ {
        Ok((ScanModel { dry_run: acc.dry_run + 1, ..acc }, 1))
    } else if acc.state == 5 && f == "--client-patch-version"@ {
        if i + 1 < args.len() {
            Ok(
                (
                    ScanModel {
                        client_patch_version: acc.client_patch_version.push(args[i + 1]),
                        ..acc
                    },
                    2,
                ),
            )
        } else {
            Err((expected_value_msg(f), false))
        }
    } else {
        Err((unexpected_flag_msg(f), false))
    }
}

/// Reading the positional argument `a`.
pub open spec fn on_arg(acc: ScanModel, a: Seq<char>) -> Result<ScanModel, ErrModel> {
    if acc.state == 0 && subcommand_state(a) != 0 {
        Ok(ScanModel { state: subcommand_state(a), ..acc })
    } else if acc.state == 6 && acc.changelog.len() == 0 {
        Ok(ScanModel { changelog: acc.changelog.push(a), ..acc })
    } else if acc.state == 8 && acc.suffix.len() == 0 {
        Ok(ScanModel { suffix: acc.suffix.push(a), ..acc })
    } else {
        Err((unexpected_arg_msg(a), false))
    }
}

/// Reading `args` from position `i` on; `dd` says whether a `--` was read,
/// after which every argument is positional.
pub open spec fn scan(args: Seq<Seq<char>>, i: int, dd: bool, acc: ScanModel) -> Result<
    ScanModel,
    ErrModel,
>
    decreases args.len() - i,
{
    if i < 0 || i >= args.len() {
        Ok(acc)
    } else if dd || !(args[i].len() > 0 && args[i][0] == '-') {
        match on_arg(acc, args[i]) {
            Ok(next) => scan(args, i + 1, dd, next),
            Err(e) => Err(e),
        }
    } else if args[i] == "--"@ {
        if i + 1 < args.len() {
            match on_arg(acc, args[i + 1]) {
                Ok(next) => scan(args, i + 2, true, next),
                Err(e) => Err(e),
            }
        } else {
            Ok(acc)
        }
    } else {
        match on_flag(acc, args, i) {
            Ok((next, used)) => if used >= 1 {
                scan(args, i + used, false, next)
            } else {
                Ok(next)
            },
            Err(e) => Err(e),
        }
    }
}

/// A switch given at most once: whether it was given.
pub open spec fn optional_switch(name: Seq<char>, n: nat) -> Result<bool, ErrModel> {
    if n > 1 {
        Err((more_than_once_msg(name), false))
    } else {
        Ok(n == 1)
    }
}

/// An option given at most once: its value, if it was given.
pub open spec fn optional_value(name: Seq<char>, vals: Seq<Seq<char>>) -> Result<
    Option<Seq<char>>,
    ErrModel,
> {
    if vals.len() > 1 {
        Err((more_than_once_msg(name), false))
    } else if vals.len() == 1 {
        Ok(Some(vals[0]))
    } else {
        Ok(None)
    }
}

/// An argument given exactly once: its value.
pub open spec fn required_value(name: Seq<char>, vals: Seq<Seq<char>>) -> Result<Seq<char>, ErrModel> {
    if vals.len() > 1 {
        Err((more_than_once_msg(name), false))
    } else if vals.len() == 1 {
        Ok(vals[0])
    } else {
        Err((required_msg(name), false))
    }
}

/// The command that a complete reading of the arguments gives.
pub open spec fn finish(acc: ScanModel) -> Result<XtaskModel, ErrModel> {
    if acc.state == 1 {
        match optional_switch("--client"@, acc.client) {
            Err(e) => Err(e),
            Ok(client) => match optional_value("--code-bin"@, acc.code_bin) {
                Err(e) => Err(e),
                Ok(code_bin) => match optional_switch("--server"@, acc.server) {
                    Err(e) => Err(e),
                    Ok(server) => match optional_switch("--mimalloc"@, acc.mimalloc) {
                        Err(e) => Err(e),
                        Ok(mimalloc) => match optional_switch("--jemalloc"@, acc.jemalloc) {
                            Err(e) => Err(e),
                            Ok(jemalloc) => Ok(
                                XtaskModel::Install { client, code_bin, server, mimalloc, jemalloc },
                            ),
                        },
                    },
                },
            },
        }
    } else if acc.state == 2 {
        Ok(XtaskModel::FuzzTests)
    } else if acc.state == 3 {
        match optional_switch("--dry-run"@, acc.dry_run) {
            Err(e) => Err(e),
            Ok(dry_run) => Ok(XtaskModel::Release { dry_run }),
        }
    } else if acc.state == 4 {
        match optional_switch("--dry-run"@, acc.dry_run) {
            Err(e) => Err(e),
            Ok(dry_run) => Ok(XtaskModel::Promote { dry_run }),
        }
    } else if acc.state == 5 {
        match optional_value("--client-patch-version"@, acc.client_patch_version) {
            Err(e) => Err(e),
            Ok(client_patch_version) => Ok(XtaskModel::Dist { client_patch_version }),
        }
    } else if acc.state == 6 {
        match optional_switch("--dry-run"@, acc.dry_run) {
            Err(e) => Err(e),
            Ok(dry_run) => match required_value("changelog"@, acc.changelog) {
                Err(e) => Err(e),
                Ok(changelog) => Ok(XtaskModel::PublishReleaseNotes { changelog, dry_run }),
            },
        }
    } else if acc.state == 7 {
        match optional_switch("--dry-run"@, acc.dry_run) {
            Err(e) => Err(e),
            Ok(dry_run) => Ok(XtaskModel::Metrics { dry_run }),
        }
    } else if acc.state == 8 {
        match required_value("suffix"@, acc.suffix) {
            Err(e) => Err(e),
            Ok(suffix) => Ok(XtaskModel::Bb { suffix }),
        }
    } else {
        Err(("subcommand is required"@, false))
    }
}

/// What the command line `args` means.
pub open spec fn parse_args(args: Seq<Seq<char>>) -> Result<XtaskModel, ErrModel> {
    match scan(args, 0, false, empty_scan()) {
        Ok(acc) => finish(acc),
        Err(e) => Err(e),
    }
}

pub open spec fn args_view(args: Seq<String>) -> Seq<Seq<char>> {
    args.map_values(|s: String| s@)
}

pub open spec fn err_view(e: FlagsError) -> ErrModel {
    (e.msg@, e.help)
}

/// The record of what has been read, as the parser keeps it.
struct Scan {
    state: u8,
    client: usize,
    code_bin: Vec<String>,
    server: usize,
    mimalloc: usize,
    jemalloc: usize,
    dry_run: usize,
    client_patch_version: Vec<String>,
    changelog: Vec<String>,
    suffix: Vec<String>,
}

impl Scan {
    spec fn model(&self) -> ScanModel {
        ScanModel {
            state: self.state as nat,
            client: self.client as nat,
            code_bin: args_view(self.code_bin@),
            server: self.server as nat,
            mimalloc: self.mimalloc as nat,
            jemalloc: self.jemalloc as nat,
            dry_run: self.dry_run as nat,
            client_patch_version: args_view(self.client_patch_version@),
            changelog: args_view(self.changelog@),
            suffix: args_view(self.suffix@),
        }
    }

    /// No switch was counted more often than `i` arguments allow.
    spec fn bounded(&self, i: nat) -> bool {
        &&& self.state <= 8
        &&& self.client <= i
        &&& self.server <= i
        &&& self.mimalloc <= i
        &&& self.jemalloc <= i
        &&& self.dry_run <= i
    }

    fn new() -> (r: Scan)
        ensures
            r.model() == empty_scan(),
            r.bounded(0),
    {
        let r = Scan {
            state: 0,
            client: 0,
            code_bin: Vec::new(),
            server: 0,
            mimalloc: 0,
            jemalloc: 0,
            dry_run: 0,
            client_patch_version: Vec::new(),
            changelog: Vec::new(),
            suffix: Vec::new(),
        };
        assert(r.model() =~= empty_scan()) by {
            assert(args_view(r.code_bin@) =~= Seq::empty());
            assert(args_view(r.client_patch_version@) =~= Seq::empty());
            assert(args_view(r.changelog@) =~= Seq::empty());
            assert(args_view(r.suffix@) =~= Seq::empty());
        }
        r
    }
}

fn subcommand_of(a: &str) -> (r: u8)
    ensures
        r == subcommand_state(a@),
{
    if str_eq(a, "install") {
        1
    } else if str_eq(a, "fuzz-tests") {
        2
    } else if str_eq(a, "release") {
        3
    } else if str_eq(a, "promote") {
        4
    } else if str_eq(a, "dist") {
        5
    } else if str_eq(a, "publish-release-notes") {
        6
    } else if str_eq(a, "metrics") {
        7
    } else if str_eq(a, "bb") {
        8
    } else {
        0
    }
}

fn plain_error(msg: String) -> (e: FlagsError)
    ensures
        err_view(e) == (msg@, false),
{
    FlagsError { msg, help: false }
}

proof fn lemma_push_view(v: Seq<String>, s: String)
    ensures
        args_view(v.push(s)) == args_view(v).push(s@),
{
    assert(args_view(v.push(s)) =~= args_view(v).push(s@));
}

/// Reads the positional argument `a` into `acc`.
fn read_arg(acc: &mut Scan, a: &str) -> (r: Result<(), FlagsError>)
    requires
        old(acc).state <= 8,
    ensures
        match (r, on_arg(old(acc).model(), a@)) {
            (Ok(_), Ok(m)) => final(acc).model() == m,
            (Err(e), Err(em)) => err_view(e) == em,
            _ => false,
        },
        final(acc).state <= 8,
        final(acc).client == old(acc).client,
        final(acc).server == old(acc).server,
        final(acc).mimalloc == old(acc).mimalloc,
        final(acc).jemalloc == old(acc).jemalloc,
        final(acc).dry_run == old(acc).dry_run,
{
    let sub = subcommand_of(a);
    if acc.state == 0 && sub != 0 {
        acc.state = sub;
        Ok(())
    } else if acc.state == 6 && acc.changelog.len() == 0 {
        let s = String::from_str(a);
        proof {
            lemma_push_view(acc.changelog@, s);
        }
        acc.changelog.push(s);
        Ok(())
    } else if acc.state == 8 && acc.suffix.len() == 0 {
        let s = String::from_str(a);
        proof {
            lemma_push_view(acc.suffix@, s);
        }
        acc.suffix.push(s);
        Ok(())
    } else {
        let m = debug_quote(a);
        let mut msg = String::from_str("unexpected argument: ");
        msg.append(m.as_str());
        Err(plain_error(msg))
    }
}

/// Reads the flag `args[i]` into `acc`, with the value that follows it where
/// it takes one; gives the number of arguments read.
fn read_flag(acc: &mut Scan, args: &Vec<String>, i: usize) -> (r: Result<usize, FlagsError>)
    requires
        i < args.len(),
        old(acc).bounded(i as nat),
    ensures
        match (r, on_flag(old(acc).model(), args_view(args@), i as int)) {
            (Ok(u), Ok((m, used))) => final(acc).model() == m && u == used,
            (Err(e), Err(em)) => err_view(e) == em,
            _ => false,
        },
        r is Ok ==> final(acc).bounded((i + 1) as nat),
{
    let f = args[i].as_str();
    let ghost fv = args_view(args@)[i as int];
    assert(fv == f@);
    let n = args.len();
    if str_eq(f, "--help") || str_eq(f, "-h") {
        Err(FlagsError { msg: String::from_str(XTASK_HELP), help: true })
    } else if acc.state == 1 && str_eq(f, "--client") {
        acc.client = acc.client + 1;
        Ok(1)
    } else if acc.state == 1 && str_eq(f, "--code-bin") {
        if i + 1 < n {
            let s = args[i + 1].clone();
            assert(s@ == args_view(args@)[i + 1]);
            proof {
                lemma_push_view(acc.code_bin@, s);
            }
            acc.code_bin.push(s);
            Ok(2)
        } else {
            Err(plain_error(concat3("expected a value for `", f, "`")))
        }
    } else if acc.state == 1 && str_eq(f, "--server") {
        acc.server = acc.server + 1;
        Ok(1)
    } else if acc.state == 1 && str_eq(f, "--mimalloc") {
        acc.mimalloc = acc.mimalloc + 1;
        Ok(1)
    } else if acc.state == 1 && str_eq(f, "--jemalloc") {
        acc.jemalloc = acc.jemalloc + 1;
        Ok(1)
    } else if (acc.state == 3 || acc.state == 4 || acc.state == 6 || acc.state == 7) && str_eq(
        f,
        "--dry-run",
    ) {
        acc.dry_run = acc.dry_run + 1;
        Ok(1)
    } else if acc.state == 5 && str_eq(f, "--client-patch-version") {
        if i + 1 < n {
            let s = args[i + 1].clone();
            assert(s@ == args_view(args@)[i + 1]);
            proof {
                lemma_push_view(acc.client_patch_version@, s);
            }
            acc.client_patch_version.push(s);
            Ok(2)
        } else {
            Err(plain_error(concat3("expected a value for `", f, "`")))
        }
    } else {
        Err(plain_error(concat3("unexpected flag: `", f, "`")))
    }
}

pub open spec fn switch_view(r: Result<bool, FlagsError>) -> Result<bool, ErrModel> {
    match r {
        Ok(b) => Ok(b),
        Err(e) => Err(err_view(e)),
    }
}

pub open spec fn opt_value_view(r: Result<Option<String>, FlagsError>) -> Result<
    Option<Seq<char>>,
    ErrModel,
> {
    match r {
        Ok(o) => Ok(opt_view(o)),
        Err(e) => Err(err_view(e)),
    }
}

pub open spec fn value_view(r: Result<String, FlagsError>) -> Result<Seq<char>, ErrModel> {
    match r {
        Ok(s) => Ok(s@),
        Err(e) => Err(err_view(e)),
    }
}

fn take_switch(name: &str, n: usize) -> (r: Result<bool, FlagsError>)
    ensures
        switch_view(r) == optional_switch(name@, n as nat),
{
    if n > 1 {
        Err(plain_error(concat3("flag specified more than once: `", name, "`")))
    } else {
        Ok(n == 1)
    }
}

fn take_optional(name: &str, vals: Vec<String>) -> (r: Result<Option<String>, FlagsError>)
    ensures
        opt_value_view(r) == optional_value(name@, args_view(vals@)),
{
    let mut vals = vals;
    if vals.len() > 1 {
        Err(plain_error(concat3("flag specified more than once: `", name, "`")))
    } else {
        Ok(vals.pop())
    }
}

fn take_required(name: &str, vals: Vec<String>) -> (r: Result<String, FlagsError>)
    ensures
        value_view(r) == required_value(name@, args_view(vals@)),
{
    let mut vals = vals;
    if vals.len() > 1 {
        Err(plain_error(concat3("flag specified more than once: `", name, "`")))
    } else {
        match vals.pop() {
            Some(v) => Ok(v),
            None => Err(plain_error(concat3("flag is required: `", name, "`"))),
        }
    }
}

fn finish_scan(acc: Scan) -> (r: Result<Xtask, FlagsError>)
    ensures
        result_view(r) == finish(acc.model()),
{
    let Scan {
        state,
        client,
        code_bin,
        server,
        mimalloc,
        jemalloc,
        dry_run,
        client_patch_version,
        changelog,
        suffix,
    } = acc;
    if state == 1 {
        let client = match take_switch("--client", client) {
            Ok(b) => b,
            Err(e) => return Err(e),
        };
        let code_bin = match take_optional("--code-bin", code_bin) {
            Ok(v) => v,
            Err(e) => return Err(e),
        };
        let server = match take_switch("--server", server) {
            Ok(b) => b,
            Err(e) => return Err(e),
        };
        let mimalloc = match take_switch("--mimalloc", mimalloc) {
            Ok(b) => b,
            Err(e) => return Err(e),
        };
        let jemalloc = match take_switch("--jemalloc", jemalloc) {
            Ok(b) => b,
            Err(e) => return Err(e),
        };
        Ok(
            Xtask {
                subcommand: XtaskCmd::Install(
                    Install { client, code_bin, server, mimalloc, jemalloc },
                ),
            },
        )
    } else if state == 2 {
        Ok(Xtask { subcommand: XtaskCmd::FuzzTests(FuzzTests) })
    } else if state == 3 {
        match take_switch("--dry-run", dry_run) {
            Ok(dry_run) => Ok(Xtask { subcommand: XtaskCmd::Release(Release { dry_run }) }),
            Err(e) => Err(e),
        }
    } else if state == 4 {
        match take_switch("--dry-run", dry_run) {
            Ok(dry_run) => Ok(Xtask { subcommand: XtaskCmd::Promote(Promote { dry_run }) }),
            Err(e) => Err(e),
        }
    } else if state == 5 {
        match take_optional("--client-patch-version", client_patch_version) {
            Ok(client_patch_version) => Ok(
                Xtask { subcommand: XtaskCmd::Dist(Dist { client_patch_version }) },
            ),
            Err(e) => Err(e),
        }
    } else if state == 6 {
        let dry_run = match take_switch("--dry-run", dry_run) {
            Ok(b) => b,
            Err(e) => return Err(e),
        };
        match take_required("changelog", changelog) {
            Ok(changelog) => Ok(
                Xtask {
                    subcommand: XtaskCmd::PublishReleaseNotes(
                        PublishReleaseNotes { changelog, dry_run },
                    ),
                },
            ),
            Err(e) => Err(e),
        }
    } else if state == 7 {
        match take_switch("--dry-run", dry_run) {
            Ok(dry_run) => Ok(Xtask { subcommand: XtaskCmd::Metrics(Metrics { dry_run }) }),
            Err(e) => Err(e),
        }
    } else if state == 8 {
        match take_required("suffix", suffix) {
            Ok(suffix) => Ok(Xtask { subcommand: XtaskCmd::Bb(Bb { suffix }) }),
            Err(e) => Err(e),
        }
    } else {
        Err(plain_error(String::from_str("subcommand is required")))
    }
}

impl Xtask {
    /// Parses the argument list `args` (without the program's name) by the
    /// grammar of the command line.
    pub fn from_vec(args: Vec<String>) -> (r: Result<Xtask, FlagsError>)
        ensures
            result_view(r) == parse_args(args_view(args@)),
    {
        let ghost all = args_view(args@);
        let mut acc = Scan::new();
        let mut i: usize = 0;
        let mut dd = false;
        let n = args.len();
        while i < n
            invariant
                n == args.len(),
                i <= n,
                all == args_view(args@),
                acc.bounded(i as nat),
                scan(all, 0, false, empty_scan()) == scan(all, i as int, dd, acc.model()),
            decreases n - i,
        {
            let a = args[i].as_str();
            assert(all[i as int] == a@);
            if dd || !starts_with_char(a, '-') {
                match read_arg(&mut acc, a) {
                    Ok(()) => {
                        i = i + 1;
                    },
                    Err(e) => {
                        return Err(e);
                    },
                }
            } else if str_eq(a, "--") {
                if i + 1 < n {
                    let b = args[i + 1].as_str();
                    assert(all[i + 1] == b@);
                    match read_arg(&mut acc, b) {
                        Ok(()) => {
                            dd = true;
                            i = i + 2;
                        },
                        Err(e) => {
                            return Err(e);
                        },
                    }
                } else {
                    i = n;
                }
            } else {
                match read_flag(&mut acc, &args, i) {
                    Ok(used) => {
                        i = i + used;
                    },
                    Err(e) => {
                        return Err(e);
                    },
                }
            }
        }
        finish_scan(acc)
    }
}

/// The allocator that the language server is built with.
pub enum Malloc {
    System,
    Mimalloc,
    Jemalloc,
}

/// What installing the server asks for.
pub struct ServerOpt {
    pub malloc: Malloc,
}

/// What installing the editor plugin asks for.
pub struct ClientOpt {
    pub code_bin: Option<String>,
}

impl Install {
    /// The server installation that the command asks for: none where only
    /// the client was asked for, else with mimalloc, jemalloc or the system
    /// allocator, in that order of preference.
    pub fn server(&self) -> (r: Option<ServerOpt>)
        ensures
            (self.client && !self.server) <==> r is None,
            r matches Some(opt) ==> opt.malloc == (if self.mimalloc {
                Malloc::Mimalloc
            } else if self.jemalloc {
                Malloc::Jemalloc
            } else {
                Malloc::System
            }),
    {
        if self.client && !self.server {
            return None;
        }
        let malloc = if self.mimalloc {
            Malloc::Mimalloc
        } else if self.jemalloc {
            Malloc::Jemalloc
        } else {
            Malloc::System
        };
        Some(ServerOpt { malloc })
    }

    /// The editor plugin installation that the command asks for: none where
    /// only the server was asked for, else with the editor binary given.
    pub fn client(&self) -> (r: Option<ClientOpt>)
        ensures
            (!self.client && self.server) <==> r is None,
            r matches Some(opt) ==> opt.code_bin == self.code_bin,
    {
        if !self.client && self.server {
            return None;
        }
        Some(ClientOpt { code_bin: self.code_bin.clone() })
    }
}


/// A command line that starts with `--help` or `-h` asks for the help
/// text, whatever follows.
pub proof fn lemma_help_first(args: Seq<Seq<char>>)
    requires
        args.len() > 0,
        args[0] == "--help"@ || args[0] == "-h"@,
    ensures
        parse_args(args) == Err::<XtaskModel, ErrModel>((XTASK_HELP@, true)),
{
    reveal_strlit("--help");
    reveal_strlit("-h");
    reveal_strlit("--");
    assert(args[0][0] == '-');
    assert(args[0] != "--"@) by {
        if args[0] == "--help"@ {
            assert(args[0].len() != "--"@.len());
        } else {
            assert(args[0][1] != "--"@[1]);
        }
    }
}

/// After a subcommand, `--help` or `-h` asks for the help text too.
pub proof fn lemma_help_after_subcommand(args: Seq<Seq<char>>)
    requires
        args.len() > 1,
        subcommand_state(args[0]) != 0,
        args[1] == "--help"@ || args[1] == "-h"@,
    ensures
        parse_args(args) == Err::<XtaskModel, ErrModel>((XTASK_HELP@, true)),
{
    reveal_strlit("--help");
    reveal_strlit("-h");
    reveal_strlit("--");
    reveal_strlit("install");
    reveal_strlit("fuzz-tests");
    reveal_strlit("release");
    reveal_strlit("promote");
    reveal_strlit("dist");
    reveal_strlit("publish-release-notes");
    reveal_strlit("metrics");
    reveal_strlit("bb");
    assert(!(args[0].len() > 0 && args[0][0] == '-'));
    let next = ScanModel { state: subcommand_state(args[0]), ..empty_scan() };
    assert(on_arg(empty_scan(), args[0]) == Ok::<ScanModel, ErrModel>(next));
    assert(args[1][0] == '-');
    assert(args[1] != "--"@) by {
        if args[1] == "--help"@ {
            assert(args[1].len() != "--"@.len());
        } else {
            assert(args[1][1] != "--"@[1]);
        }
    }
    assert(scan(args, 1, false, next) == Err::<ScanModel, ErrModel>((XTASK_HELP@, true)));
}

/// Once a subcommand is chosen, reading further arguments keeps it.
pub proof fn lemma_scan_keeps_subcommand(args: Seq<Seq<char>>, i: int, dd: bool, acc: ScanModel)
    requires
        acc.state != 0,
    ensures
        scan(args, i, dd, acc) matches Ok(a) ==> a.state == acc.state,
    decreases args.len() - i,
{
    if i < 0 || i >= args.len() {
    } else if dd || !(args[i].len() > 0 && args[i][0] == '-') {
        match on_arg(acc, args[i]) {
            Ok(next) => lemma_scan_keeps_subcommand(args, i + 1, dd, next),
            Err(_) => {},
        }
    } else if args[i] == "--"@ {
        if i + 1 < args.len() {
            match on_arg(acc, args[i + 1]) {
                Ok(next) => lemma_scan_keeps_subcommand(args, i + 2, true, next),
                Err(_) => {},
            }
        }
    } else {
        match on_flag(acc, args, i) {
            Ok((next, used)) => if used >= 1 {
                lemma_scan_keeps_subcommand(args, i + used, false, next);
            },
            Err(_) => {},
        }
    }
}

/// The first argument names the command: a command line that starts with
/// the name of a subcommand and parses gives that subcommand.
pub proof fn lemma_first_argument_names_command(args: Seq<Seq<char>>)
    requires
        args.len() > 0,
    ensures
        parse_args(args) matches Ok(m) ==> {
            &&& args[0] == "install"@ ==> m is Install
            &&& args[0] == "fuzz-tests"@ ==> m is FuzzTests
            &&& args[0] == "release"@ ==> m is Release
            &&& args[0] == "promote"@ ==> m is Promote
            &&& args[0] == "dist"@ ==> m is Dist
            &&& args[0] == "publish-release-notes"@ ==> m is PublishReleaseNotes
            &&& args[0] == "metrics"@ ==> m is Metrics
            &&& args[0] == "bb"@ ==> m is Bb
        },
{
    reveal_strlit("install");
    reveal_strlit("fuzz-tests");
    reveal_strlit("release");
    reveal_strlit("promote");
    reveal_strlit("dist");
    reveal_strlit("publish-release-notes");
    reveal_strlit("metrics");
    reveal_strlit("bb");
    if subcommand_state(args[0]) != 0 {
        assert(!(args[0].len() > 0 && args[0][0] == '-'));
        let next = ScanModel { state: subcommand_state(args[0]), ..empty_scan() };
        assert(on_arg(empty_scan(), args[0]) == Ok::<ScanModel, ErrModel>(next));
        lemma_scan_keeps_subcommand(args, 1, false, next);
    }
}

/// Whether `--dry-run` occurs among `args[i..]`.
pub open spec fn dry_run_from(args: Seq<Seq<char>>, i: int) -> bool {
    exists|j: int| i <= j < args.len() && args[j] == "--dry-run"@
}

proof fn lemma_dry_run_from_step(args: Seq<Seq<char>>, i: int)
    requires
        0 <= i < args.len(),
    ensures
        dry_run_from(args, i) == (args[i] == "--dry-run"@ || dry_run_from(args, i + 1)),
{
    if dry_run_from(args, i) && args[i] != "--dry-run"@ {
        let j = choose|j: int| i <= j < args.len() && args[j] == "--dry-run"@;
        assert(i + 1 <= j);
    }
    if args[i] == "--dry-run"@ {
        assert(i <= i < args.len() && args[i] == "--dry-run"@);
    }
    if dry_run_from(args, i + 1) {
        let j = choose|j: int| i + 1 <= j < args.len() && args[j] == "--dry-run"@;
        assert(i <= j < args.len() && args[j] == "--dry-run"@);
    }
}

/// For the commands with a `--dry-run` switch and nothing else (release,
/// promote, metrics), the scan has counted `--dry-run` exactly when it
/// occurs among the arguments read.
pub proof fn lemma_scan_dry_run(args: Seq<Seq<char>>, i: int, dd: bool, acc: ScanModel)
    requires
        0 <= i,
    ensures
        scan(args, i, dd, acc) matches Ok(a) ==> ((a.state == 3 || a.state == 4 || a.state == 7) ==> (
        a.dry_run > 0 <==> (acc.dry_run > 0 || dry_run_from(args, i)))),
    decreases args.len() - i,
{
    reveal_strlit("--dry-run");
    reveal_strlit("--");
    reveal_strlit("--help");
    reveal_strlit("-h");
    reveal_strlit("--client");
    reveal_strlit("--code-bin");
    reveal_strlit("--server");
    reveal_strlit("--mimalloc");
    reveal_strlit("--jemalloc");
    reveal_strlit("--client-patch-version");
    reveal_strlit("install");
    reveal_strlit("fuzz-tests");
    reveal_strlit("release");
    reveal_strlit("promote");
    reveal_strlit("dist");
    reveal_strlit("publish-release-notes");
    reveal_strlit("metrics");
    reveal_strlit("bb");
    if i >= args.len() {
    } else {
        lemma_dry_run_from_step(args, i);
        assert(subcommand_state("--dry-run"@) == 0) by {
        assert("--dry-run"@ != "install"@) by {
            assert("--dry-run"@[0] != "install"@[0]);
        }
        assert("--dry-run"@ != "fuzz-tests"@) by {
            assert("--dry-run"@[0] != "fuzz-tests"@[0]);
        }
        assert("--dry-run"@ != "release"@) by {
            assert("--dry-run"@[0] != "release"@[0]);
        }
        assert("--dry-run"@ != "promote"@) by {
            assert("--dry-run"@[0] != "promote"@[0]);
        }
        assert("--dry-run"@ != "dist"@) by {
            assert("--dry-run"@[0] != "dist"@[0]);
        }
        assert("--dry-run"@ != "publish-release-notes"@) by {
            assert("--dry-run"@[0] != "publish-release-notes"@[0]);
        }
        assert("--dry-run"@ != "metrics"@) by {
            assert("--dry-run"@[0] != "metrics"@[0]);
        }
        assert("--dry-run"@ != "bb"@) by {
            assert("--dry-run"@[0] != "bb"@[0]);
        }
        }
        if dd || !(args[i].len() > 0 && args[i][0] == '-') {
            match on_arg(acc, args[i]) {
                Ok(next) => {
                    lemma_scan_dry_run(args, i + 1, dd, next);
                    if args[i] == "--dry-run"@ {
                        lemma_scan_keeps_subcommand(args, i + 1, dd, next);
                    }
                },
                Err(_) => {},
            }
        } else if args[i] == "--"@ {
            assert(args[i] != "--dry-run"@) by {
                assert(args[i].len() != "--dry-run"@.len());
            }
            if i + 1 < args.len() {
                lemma_dry_run_from_step(args, i + 1);
                match on_arg(acc, args[i + 1]) {
                    Ok(next) => {
                        lemma_scan_dry_run(args, i + 2, true, next);
                        if args[i + 1] == "--dry-run"@ {
                            lemma_scan_keeps_subcommand(args, i + 2, true, next);
                        }
                    },
                    Err(_) => {},
                }
            } else {
                assert(!dry_run_from(args, i + 1));
            }
        } else {
            match on_flag(acc, args, i) {
                Ok((next, used)) => {
                    if used >= 1 {
                        lemma_scan_dry_run(args, i + used, false, next);
                        if used == 2 {
                            lemma_scan_keeps_subcommand(args, i + used, false, next);
                        }
                    }
                },
                Err(_) => {},
            }
        }
    }
}

/// `--dry-run` is honoured: for release, promote and metrics, a command line
/// that parses asks for a dry run exactly when `--dry-run` occurs in it.
pub proof fn lemma_dry_run_given(args: Seq<Seq<char>>)
    ensures
        parse_args(args) matches Ok(m) ==> {
            &&& m matches XtaskModel::Release { dry_run } ==> dry_run == args.contains("--dry-run"@)
            &&& m matches XtaskModel::Promote { dry_run } ==> dry_run == args.contains("--dry-run"@)
            &&& m matches XtaskModel::Metrics { dry_run } ==> dry_run == args.contains("--dry-run"@)
        },
{
    lemma_scan_dry_run(args, 0, false, empty_scan());
    assert(dry_run_from(args, 0) == args.contains("--dry-run"@));
}

} // verus!
