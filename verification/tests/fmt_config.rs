use crabkit::fmt_config::{apply_inline_config, default_fmt_config, print_config, Color, Edition};

/// Runs `--print-config` with `args`, returning what goes to standard output
/// and to standard error.
fn crablangfmt(args: &[&str]) -> (String, String) {
    let v: Vec<String> = args.iter().map(|s| s.to_string()).collect();
    match print_config(&v) {
        Ok(out) => (out, String::new()),
        Err(e) => (String::new(), e),
    }
}

fn assert_contains_all(args: &[&str], needles: &[&str]) {
    let (stdout, stderr) = crablangfmt(args);
    for n in needles {
        if !stdout.contains(n) && !stderr.contains(n) {
            panic!(
                "Output not expected for crablangfmt {:?}\nexpected: {}\nactual stdout:\n{}\nactual stderr:\n{}",
                args, n, stdout, stderr
            );
        }
    }
}

#[test]
fn inline_config() {
    // single invocation
    assert_contains_all(
        &["--print-config", "current", ".", "--config=color=Never,edition=2018"],
        &["color = \"Never\"", "edition = \"2018\""],
    );

    // multiple overriding invocations
    assert_contains_all(
        &[
            "--print-config",
            "current",
            ".",
            "--config",
            "color=never,edition=2018",
            "--config",
            "color=always,format_strings=true",
        ],
        &["color = \"Always\"", "edition = \"2018\"", "format_strings = true"],
    );
}

#[test]
fn print_config_kinds() {
    let (_, stderr) = crablangfmt(&["--print-config", "unknown"]);
    assert!(stderr.starts_with("Unknown print-config option"));
    let (stdout, _) = crablangfmt(&["--print-config", "default"]);
    assert!(stdout.contains("max_width = 100"));
    assert_eq!(
        stdout,
        "max_width = 100\ncolor = \"Auto\"\nedition = \"2015\"\nformat_strings = false\n"
    );
}

#[test]
fn print_config_default_ignores_overrides() {
    let (stdout, _) = crablangfmt(&["--print-config", "default", "--config=max_width=80"]);
    assert!(stdout.contains("max_width = 100"));
    let (stdout, _) = crablangfmt(&["--print-config", "current", "--config=max_width=80"]);
    assert!(stdout.contains("max_width = 80"));
}

#[test]
fn print_config_errors() {
    let (_, stderr) = crablangfmt(&["--print-config"]);
    assert_eq!(stderr, "Argument to option 'print-config' missing");
    let (_, stderr) = crablangfmt(&["--print-config", "current", "--config"]);
    assert_eq!(stderr, "Argument to option 'config' missing");
    let (_, stderr) = crablangfmt(&["--print-config", "current", "--config=colour=never"]);
    assert_eq!(stderr, "invalid configuration `colour=never`");
    let (_, stderr) = crablangfmt(&["--print-config", "current", "--config=color"]);
    assert_eq!(stderr, "invalid key=val pair: `color`");
    let (_, stderr) = crablangfmt(&["."]);
    assert_eq!(stderr, "no `--print-config` given");
}

#[test]
fn inline_settings_apply_in_order() {
    let c = apply_inline_config(default_fmt_config(), "color=NEVER,color=auto,edition=2021").ok().unwrap();
    assert!(c.color == Color::Auto);
    assert!(c.edition == Edition::Edition2021);
    assert_eq!(c.max_width, 100);
    assert!(apply_inline_config(default_fmt_config(), "edition=2019").is_err());
    assert!(apply_inline_config(default_fmt_config(), "format_strings=yes").is_err());
}
