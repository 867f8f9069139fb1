use crabkit::metrics::{bench_path, host_from_files, parse_metrics, read_field, str_less, Host, Metrics, PERF_REVISION};

fn host() -> Host {
    Host { os: "Linux".to_string(), cpu: "cpu".to_string(), mem: "1 kB".to_string() }
}

#[test]
fn parse_metrics_picks_metric_lines() {
    let out = "Database loaded\nMETRIC:total time:1234:ms\nMETRIC:memory:56:mb\r\nMETRIC:bad:1\nMETRICS:x:1:y\n";
    let m = parse_metrics(out);
    assert_eq!(
        m,
        vec![
            ("total time".to_string(), 1234, "ms".to_string()),
            ("memory".to_string(), 56, "mb".to_string()),
        ]
    );
    assert!(parse_metrics("").is_empty());
}

#[test]
fn report_replaces_and_keeps_names_sorted() {
    let mut m = Metrics::new(host(), 7, "abc".to_string());
    assert_eq!(m.perf_revision(), PERF_REVISION);
    assert_eq!(m.revision(), "abc");
    assert_eq!(m.timestamp(), 7);
    m.report("zeta", 1, "ms".to_string());
    m.report("alpha", 2, "mb".to_string());
    m.report("zeta", 3, "s".to_string());
    m.report("Beta", 4, "#".to_string());
    assert_eq!(
        m.metrics(),
        &vec![
            ("Beta".to_string(), 4, "#".to_string()),
            ("alpha".to_string(), 2, "mb".to_string()),
            ("zeta".to_string(), 3, "s".to_string()),
        ]
    );
}

#[test]
fn record_analysis_stats_prefixes_names() {
    let mut m = Metrics::new(host(), 0, "r".to_string());
    m.record_build(900);
    m.record_analysis_stats("self", "METRIC:total time:10:ms\nMETRIC:total memory:20:mb\n");
    assert_eq!(
        m.metrics(),
        &vec![
            ("analysis-stats/self/total memory".to_string(), 20, "mb".to_string()),
            ("analysis-stats/self/total time".to_string(), 10, "ms".to_string()),
            ("build".to_string(), 900, "ms".to_string()),
        ]
    );
}

#[test]
fn string_order_is_by_code_point() {
    assert!(str_less("a", "b"));
    assert!(str_less("ab", "abc"));
    assert!(!str_less("abc", "ab"));
    assert!(!str_less("same", "same"));
    assert!(str_less("Z", "a"));
}

#[test]
fn bench_paths() {
    assert_eq!(bench_path("ripgrep"), "./target/crablangc-perf/collector/benchmarks/ripgrep");
}

#[test]
fn host_fields_from_system_files() {
    let os = "NAME=\"Ubuntu\"\nPRETTY_NAME=\"Ubuntu 22.04 LTS\"\n";
    let cpu = "processor\t: 0\nmodel name\t: AMD Ryzen 9\nflags: x\n";
    let mem = "MemTotal:       16303252 kB\nMemFree: 1 kB\n";
    let h = host_from_files(os, cpu, mem).ok().unwrap();
    assert_eq!(h.os, "Ubuntu 22.04 LTS");
    assert_eq!(h.cpu, "AMD Ryzen 9");
    assert_eq!(h.mem, "16303252 kB");
    assert_eq!(host_from_files("", cpu, mem).err().unwrap(), "can't parse /etc/os-release");
    assert_eq!(host_from_files(os, "", mem).err().unwrap(), "can't parse /proc/cpuinfo");
    assert_eq!(host_from_files(os, cpu, "").err().unwrap(), "can't parse /proc/meminfo");
    assert_eq!(read_field("a=1\nb= 2 \n", "b="), Some("2".to_string()));
    assert_eq!(read_field("a=1\n", "c="), None);
}
