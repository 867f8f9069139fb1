use crabkit::xtask::{Malloc, Xtask, XtaskCmd, XTASK_HELP};

fn parse(args: &[&str]) -> Result<Xtask, (String, bool)> {
    Xtask::from_vec(args.iter().map(|s| s.to_string()).collect()).map_err(|e| (e.msg, e.help))
}

#[test]
fn install_flags() {
    let x = parse(&["install", "--server", "--jemalloc"]).ok().unwrap();
    match &x.subcommand {
        XtaskCmd::Install(i) => {
            assert!(i.server && i.jemalloc && !i.client && !i.mimalloc);
            let s = i.server().unwrap();
            assert!(matches!(s.malloc, Malloc::Jemalloc));
            assert!(i.client().is_none());
        }
        _ => panic!("expected install"),
    }
    let x = parse(&["install", "--code-bin", "codium"]).ok().unwrap();
    match &x.subcommand {
        XtaskCmd::Install(i) => {
            assert_eq!(i.code_bin.as_deref(), Some("codium"));
            let c = i.client().unwrap();
            assert_eq!(c.code_bin.as_deref(), Some("codium"));
            assert!(matches!(i.server().unwrap().malloc, Malloc::System));
        }
        _ => panic!("expected install"),
    }
}

#[test]
fn other_subcommands() {
    assert!(matches!(parse(&["metrics", "--dry-run"]).ok().unwrap().subcommand, XtaskCmd::Metrics(m) if m.dry_run));
    match parse(&["publish-release-notes", "--dry-run", "CHANGELOG.adoc"]).ok().unwrap().subcommand {
        XtaskCmd::PublishReleaseNotes(p) => {
            assert!(p.dry_run);
            assert_eq!(p.changelog, "CHANGELOG.adoc");
        }
        _ => panic!("expected publish-release-notes"),
    }
    match parse(&["bb", "fast"]).ok().unwrap().subcommand {
        XtaskCmd::Bb(b) => assert_eq!(b.suffix, "fast"),
        _ => panic!("expected bb"),
    }
    assert!(matches!(parse(&["fuzz-tests"]).ok().unwrap().subcommand, XtaskCmd::FuzzTests(_)));
}

#[test]
fn flag_errors() {
    assert_eq!(parse(&[]).err().unwrap(), ("subcommand is required".to_string(), false));
    assert_eq!(parse(&["install", "--bogus"]).err().unwrap(), ("unexpected flag: `--bogus`".to_string(), false));
    assert_eq!(parse(&["install", "--server", "--server"]).err().unwrap(), ("flag specified more than once: `--server`".to_string(), false));
    assert_eq!(parse(&["install", "--code-bin"]).err().unwrap(), ("expected a value for `--code-bin`".to_string(), false));
    assert_eq!(parse(&["bb"]).err().unwrap(), ("flag is required: `suffix`".to_string(), false));
    assert_eq!(parse(&["release", "extra"]).err().unwrap(), ("unexpected argument: \"extra\"".to_string(), false));
    assert_eq!(parse(&["--help"]).err().unwrap(), (XTASK_HELP.to_string(), true));
}
