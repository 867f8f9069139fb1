//! The metrics that the benchmark job collects: parsing the `METRIC` lines
//! that the analyzer prints, the table of named measurements, and the
//! description of the host they were taken on.
use vstd::prelude::*;
use crate::decimal::{parse_u64, parse_u64_spec};
use crate::text::{
    concat3, lines_of, lines_spec, split_by_char, split_char, str_eq, strings_view, strip_prefix,
    trim, trim_end_char, trim_end_spec, trim_spec, trim_start_char, trim_start_spec,
};

verus! {

/// The byte-wise (equivalently, code-point-wise) lexicographic order of
/// strings: the order in which a sorted map of strings keeps its keys.
pub open spec fn str_lt(a: Seq<char>, b: Seq<char>) -> bool
    decreases a.len(),
{
    if a.len() == 0 {
        b.len() > 0
    } else if b.len() == 0 {
        false
    } else if a[0] != b[0] {
        (a[0] as int) < (b[0] as int)
    } else {
        str_lt(a.drop_first(), b.drop_first())
    }
}

/// No string comes before itself.
pub proof fn lemma_str_lt_irreflexive(a: Seq<char>)
    ensures
        !str_lt(a, a),
    decreases a.len(),
{
    if a.len() > 0 {
        lemma_str_lt_irreflexive(a.drop_first());
    }
}

/// The order is transitive.
pub proof fn lemma_str_lt_transitive(a: Seq<char>, b: Seq<char>, c: Seq<char>)
    requires
        str_lt(a, b),
        str_lt(b, c),
    ensures
        str_lt(a, c),
    decreases a.len(),
{
    if a.len() > 0 && b.len() > 0 && c.len() > 0 && a[0] == b[0] && b[0] == c[0] {
        lemma_str_lt_transitive(a.drop_first(), b.drop_first(), c.drop_first());
    }
}

/// Of two different strings, one comes before the other.
pub proof fn lemma_str_lt_total(a: Seq<char>, b: Seq<char>)
    ensures
        a == b || str_lt(a, b) || str_lt(b, a),
    decreases a.len(),
{
    if a.len() == 0 && b.len() == 0 {
        assert(a =~= b);
    } else if a.len() > 0 && b.len() > 0 && a[0] == b[0] {
        lemma_str_lt_total(a.drop_first(), b.drop_first());
        if a.drop_first() == b.drop_first() {
            assert(a =~= b) by {
                assert(a.len() == a.drop_first().len() + 1);
                assert(b.len() == b.drop_first().len() + 1);
                assert forall|i: int| 0 <= i < a.len() implies a[i] == b[i] by {
                    if i > 0 {
                        assert(a[i] == a.drop_first()[i - 1]);
                        assert(b[i] == b.drop_first()[i - 1]);
                    }
                }
            }
        }
    }
}

/// Whether `a` comes before `b`.
pub fn str_less(a: &str, b: &str) -> (r: bool)
    ensures
        r == str_lt(a@, b@),
{
    let n = a.unicode_len();
    let m = b.unicode_len();
    let mut i: usize = 0;
    proof {
        assert(a@.skip(0) =~= a@);
        assert(b@.skip(0) =~= b@);
    }
    while i < n && i < m
        invariant
            n == a@.len(),
            m == b@.len(),
            i <= n,
            i <= m,
            str_lt(a@, b@) == str_lt(a@.skip(i as int), b@.skip(i as int)),
        decreases n - i,
    {
        let ca = a.get_char(i);
        let cb = b.get_char(i);
        assert(a@.skip(i as int)[0] == ca);
        assert(b@.skip(i as int)[0] == cb);
        if ca != cb {
            return (ca as u32) < (cb as u32);
        }
        assert(a@.skip(i as int).drop_first() =~= a@.skip(i + 1));
        assert(b@.skip(i as int).drop_first() =~= b@.skip(i + 1));
        i = i + 1;
    }
    i == n && i < m
}

/// A measurement: its name, its value and its unit.
pub type MetricEntry = (String, u64, String);

/// The values of a list of measurements.
pub open spec fn entries_view(v: Seq<MetricEntry>) -> Seq<(Seq<char>, u64, Seq<char>)> {
    v.map_values(|e: MetricEntry| (e.0@, e.1, e.2@))
}

/// The names of the measurements come in strictly increasing order, so no
/// name occurs twice.
pub open spec fn sorted_by_name(s: Seq<(Seq<char>, u64, Seq<char>)>) -> bool {
    forall|i: int, j: int| 0 <= i < j < s.len() ==> str_lt(#[trigger] s[i].0, #[trigger] s[j].0)
}

/// Whether a measurement called `k` is in `s`.
pub open spec fn has_name(s: Seq<(Seq<char>, u64, Seq<char>)>, k: Seq<char>) -> bool {
    exists|i: int| 0 <= i < s.len() && #[trigger] s[i].0 == k
}

/// The place of the measurement called `k` in `s`.
pub open spec fn name_index(s: Seq<(Seq<char>, u64, Seq<char>)>, k: Seq<char>) -> int {
    choose|i: int| 0 <= i < s.len() && #[trigger] s[i].0 == k
}

/// The measurements of `s` as a map from name to value and unit.
pub open spec fn table_map(s: Seq<(Seq<char>, u64, Seq<char>)>) -> Map<
    Seq<char>,
    (u64, Seq<char>),
> {
    Map::new(
        |k: Seq<char>| has_name(s, k),
        |k: Seq<char>| (s[name_index(s, k)].1, s[name_index(s, k)].2),
    )
}

/// In a list sorted by name, the measurement found under a name is the one
/// at its place.
pub proof fn lemma_table_at(s: Seq<(Seq<char>, u64, Seq<char>)>, i: int)
    requires
        sorted_by_name(s),
        0 <= i < s.len(),
    ensures
        table_map(s).contains_key(s[i].0),
        table_map(s)[s[i].0] == (s[i].1, s[i].2),
{
    assert(has_name(s, s[i].0));
    let c = name_index(s, s[i].0);
    if c != i {
        lemma_str_lt_irreflexive(s[i].0);
        if c < i {
            assert(str_lt(s[c].0, s[i].0));
        } else {
            assert(str_lt(s[i].0, s[c].0));
        }
    }
}


/// Inserting a measurement at the place that keeps the names sorted keeps
/// them sorted, and adds the measurement to the map.
pub proof fn lemma_table_insert(
    s: Seq<(Seq<char>, u64, Seq<char>)>,
    j: int,
    e: (Seq<char>, u64, Seq<char>),
)
    requires
        sorted_by_name(s),
        0 <= j <= s.len(),
        forall|t: int| 0 <= t < j ==> str_lt(#[trigger] s[t].0, e.0),
        j < s.len() ==> str_lt(e.0, s[j].0),
    ensures
        sorted_by_name(s.insert(j, e)),
        table_map(s.insert(j, e)) == table_map(s).insert(e.0, (e.1, e.2)),
{
    let t = s.insert(j, e);
    assert forall|a: int, b: int| 0 <= a < b < t.len() implies str_lt(#[trigger] t[a].0, #[trigger] t[b].0) by {
        if a < j && b == j {
        } else if a == j && b > j {
            if b > j + 1 {
                lemma_str_lt_transitive(e.0, s[j].0, s[b - 1].0);
            }
        } else if a < j && b > j {
            assert(str_lt(s[a].0, e.0));
            if j < s.len() {
                if b - 1 > j {
                    lemma_str_lt_transitive(e.0, s[j].0, s[b - 1].0);
                }
                lemma_str_lt_transitive(s[a].0, e.0, s[b - 1].0);
            }
        } else if a > j {
            assert(t[a] == s[a - 1] && t[b] == s[b - 1]);
        }
    }
    let m = table_map(s).insert(e.0, (e.1, e.2));
    assert forall|x: Seq<char>| #[trigger] table_map(t).contains_key(x) == m.contains_key(x) by {
        if has_name(t, x) {
            let i = choose|i: int| 0 <= i < t.len() && #[trigger] t[i].0 == x;
            if i < j {
                assert(s[i].0 == x);
            } else if i > j {
                assert(s[i - 1].0 == x);
            }
        }
        if has_name(s, x) {
            let i = choose|i: int| 0 <= i < s.len() && #[trigger] s[i].0 == x;
            if i < j {
                assert(t[i].0 == x);
            } else {
                assert(t[i + 1].0 == x);
            }
        }
        if x == e.0 {
            assert(t[j].0 == x);
        }
    }
    assert forall|x: Seq<char>| #[trigger] m.contains_key(x) implies table_map(t)[x] == m[x] by {
        if x == e.0 {
            lemma_table_at(t, j);
        } else {
            let i = choose|i: int| 0 <= i < s.len() && #[trigger] s[i].0 == x;
            lemma_table_at(s, i);
            if i < j {
                lemma_table_at(t, i);
            } else {
                assert(t[i + 1] == s[i]);
                lemma_table_at(t, i + 1);
            }
        }
    }
    assert(table_map(t) =~= m);
}

/// Replacing the measurement at the place of its name keeps the names
/// sorted, and replaces the measurement in the map.
pub proof fn lemma_table_replace(
    s: Seq<(Seq<char>, u64, Seq<char>)>,
    j: int,
    e: (Seq<char>, u64, Seq<char>),
)
    requires
        sorted_by_name(s),
        0 <= j < s.len(),
        s[j].0 == e.0,
    ensures
        sorted_by_name(s.update(j, e)),
        table_map(s.update(j, e)) == table_map(s).insert(e.0, (e.1, e.2)),
{
    let t = s.update(j, e);
    assert forall|a: int, b: int| 0 <= a < b < t.len() implies str_lt(#[trigger] t[a].0, #[trigger] t[b].0) by {
        assert(t[a].0 == s[a].0 && t[b].0 == s[b].0);
    }
    let m = table_map(s).insert(e.0, (e.1, e.2));
    assert forall|x: Seq<char>| #[trigger] table_map(t).contains_key(x) == m.contains_key(x) by {
        if has_name(t, x) {
            let i = choose|i: int| 0 <= i < t.len() && #[trigger] t[i].0 == x;
            assert(s[i].0 == x);
        }
        if has_name(s, x) {
            let i = choose|i: int| 0 <= i < s.len() && #[trigger] s[i].0 == x;
            assert(t[i].0 == x);
        }
    }
    assert forall|x: Seq<char>| #[trigger] m.contains_key(x) implies table_map(t)[x] == m[x] by {
        if x == e.0 {
            lemma_table_at(t, j);
        } else {
            let i = choose|i: int| 0 <= i < s.len() && #[trigger] s[i].0 == x;
            lemma_table_at(s, i);
            assert(t[i] == s[i]);
            lemma_table_at(t, i);
        }
    }
    assert(table_map(t) =~= m);
}

/// The revision of the benchmark suite that the measurements run against.
pub const PERF_REVISION: &'static str = "c52ee623e231e7690a93be88d943016968c1036b";

/// The machine the measurements were taken on.
#[derive(Debug)]
pub struct Host {
    pub os: String,
    pub cpu: String,
    pub mem: String,
}

/// The measurements of one run, with where and when they were taken.
#[derive(Debug)]
pub struct Metrics {
    host: Host,
    timestamp: u64,
    revision: String,
    perf_revision: String,
    metrics: Vec<MetricEntry>,
}

impl Metrics {
    #[verifier::type_invariant]
    spec fn names_sorted(self) -> bool {
        sorted_by_name(entries_view(self.metrics@))
    }

    /// The measurements, in the order of their names.
    pub closed spec fn entries(&self) -> Seq<(Seq<char>, u64, Seq<char>)> {
        entries_view(self.metrics@)
    }

    /// The measurements, as a map from name to value and unit.
    pub open spec fn table(&self) -> Map<Seq<char>, (u64, Seq<char>)> {
        table_map(self.entries())
    }

    /// The host the measurements were taken on.
    pub closed spec fn host_info(&self) -> Host {
        self.host
    }

    /// When the run started, in seconds since the Unix epoch.
    pub closed spec fn timestamp_secs(&self) -> u64 {
        self.timestamp
    }

    /// The revision of the code that was measured.
    pub closed spec fn revision_text(&self) -> Seq<char> {
        self.revision@
    }

    /// The revision of the benchmark suite.
    pub closed spec fn perf_revision_text(&self) -> Seq<char> {
        self.perf_revision@
    }

    /// A run with no measurements yet, on `host`, started at `timestamp`
    /// (seconds since the Unix epoch), of the code at `revision`.
    pub fn new(host: Host, timestamp: u64, revision: String) -> (r: Metrics)
        ensures
            r.host_info() == host,
            r.timestamp_secs() == timestamp,
            r.revision_text() == revision@,
            r.perf_revision_text() == PERF_REVISION@,
            r.entries() == Seq::<(Seq<char>, u64, Seq<char>)>::empty(),
            r.table() == Map::<Seq<char>, (u64, Seq<char>)>::empty(),
    {
        let r = Metrics {
            host,
            timestamp,
            revision,
            perf_revision: String::from_str(PERF_REVISION),
            metrics: Vec::new(),
        };
        assert(entries_view(r.metrics@) =~= Seq::<(Seq<char>, u64, Seq<char>)>::empty());
        assert(table_map(r.entries()) =~= Map::<Seq<char>, (u64, Seq<char>)>::empty());
        r
    }

    /// Records the measurement `name`, replacing an earlier one of that name.
    pub fn report(&mut self, name: &str, value: u64, unit: String)
        ensures
            final(self).table() == old(self).table().insert(name@, (value, unit@)),
            final(self).host_info() == old(self).host_info(),
            final(self).timestamp_secs() == old(self).timestamp_secs(),
            final(self).revision_text() == old(self).revision_text(),
            final(self).perf_revision_text() == old(self).perf_revision_text(),
    {
        proof {
            use_type_invariant(&*self);
        }
        let mut v: Vec<MetricEntry> = Vec::new();
        std::mem::swap(&mut v, &mut self.metrics);
        let ghost s = entries_view(v@);
        let n = v.len();
        let mut j: usize = 0;
        while j < n && str_less(v[j].0.as_str(), name)
            invariant
                n == v.len(),
                j <= n,
                s == entries_view(v@),
                sorted_by_name(s),
                forall|t: int| 0 <= t < j ==> str_lt(#[trigger] s[t].0, name@),
            decreases n - j,
        {
            j = j + 1;
        }
        let e: MetricEntry = (String::from_str(name), value, unit);
        let ghost ev = (e.0@, e.1, e.2@);
        if j < n && !str_less(name, v[j].0.as_str()) {
            proof {
                lemma_str_lt_total(name@, s[j as int].0);
                lemma_table_replace(s, j as int, ev);
            }
            v.set(j, e);
            assert(entries_view(v@) =~= s.update(j as int, ev));
        } else {
            proof {
                if j < n {
                    lemma_str_lt_total(name@, s[j as int].0);
                    lemma_str_lt_irreflexive(name@);
                }
                lemma_table_insert(s, j as int, ev);
            }
            v.insert(j, e);
            assert(entries_view(v@) =~= s.insert(j as int, ev));
        }
        self.metrics = v;
    }

    /// The measurements, in the order of their names.
    pub fn metrics(&self) -> (r: &Vec<MetricEntry>)
        ensures
            entries_view(r@) == self.entries(),
            sorted_by_name(self.entries()),
    {
        proof {
            use_type_invariant(self);
        }
        &self.metrics
    }

    /// The host the measurements were taken on.
    pub fn host(&self) -> (r: &Host)
        ensures
            *r == self.host_info(),
    {
        &self.host
    }

    /// When the run started, in seconds since the Unix epoch.
    pub fn timestamp(&self) -> (r: u64)
        ensures
            r == self.timestamp_secs(),
    {
        self.timestamp
    }

    /// The revision of the code that was measured.
    pub fn revision(&self) -> (r: &str)
        ensures
            r@ == self.revision_text(),
    {
        self.revision.as_str()
    }

    /// The revision of the benchmark suite.
    pub fn perf_revision(&self) -> (r: &str)
        ensures
            r@ == self.perf_revision_text(),
    {
        self.perf_revision.as_str()
    }
}


/// Whether a line of the analyzer's output reports a measurement: it has
/// four fields separated by `:`, the first of which is `METRIC`.
pub open spec fn is_metric_line(l: Seq<char>) -> bool {
    let p = split_char(l, ':');
    p.len() == 4 && p[0] == "METRIC"@
}

/// The measurements that the lines `ls` report: name, value and unit of each
/// `METRIC:name:value:unit` line, in order.
pub open spec fn metrics_of_lines(ls: Seq<Seq<char>>) -> Seq<(Seq<char>, u64, Seq<char>)>
    decreases ls.len(),
{
    if ls.len() == 0 {
        Seq::empty()
    } else {
        let rest = metrics_of_lines(ls.drop_last());
        let p = split_char(ls.last(), ':');
        if is_metric_line(ls.last()) {
            rest.push((p[1], parse_u64_spec(p[2]).unwrap(), p[3]))
        } else {
            rest
        }
    }
}

/// Every measurement line of `ls` has a value that is a number.
pub open spec fn metric_values_parse(ls: Seq<Seq<char>>) -> bool {
    forall|i: int|
        0 <= i < ls.len() && #[trigger] is_metric_line(ls[i]) ==> parse_u64_spec(
            split_char(ls[i], ':')[2],
        ) is Some
}

/// The measurements that the analyzer's output reports. A measurement line
/// whose value is not a number is a bug of the analyzer, on which the
/// collection stops.
pub fn parse_metrics(output: &str) -> (r: Vec<MetricEntry>)
    requires
        metric_values_parse(lines_spec(output@)),
    ensures
        entries_view(r@) == metrics_of_lines(lines_spec(output@)),
{
    let lines = lines_of(output);
    let ghost ls = lines_spec(output@);
    let mut out: Vec<MetricEntry> = Vec::new();
    let mut i: usize = 0;
    proof {
        reveal_strlit("METRIC");
        assert(ls.take(0) =~= Seq::<Seq<char>>::empty());
    }
    while i < lines.len()
        invariant
            strings_view(lines@) == ls,
            metric_values_parse(ls),
            i <= lines.len(),
            entries_view(out@) == metrics_of_lines(ls.take(i as int)),
        decreases lines.len() - i,
    {
        let line = lines[i].as_str();
        assert(line@ == ls[i as int]);
        assert(ls.take(i + 1).drop_last() =~= ls.take(i as int));
        assert(ls.take(i + 1).last() == ls[i as int]);
        let pieces = split_by_char(line, ':');
        proof {
            crate::text::lemma_split_char_nonempty(line@, ':');
        }
        assert(strings_view(pieces@)[0] == pieces[0]@);
        if pieces.len() == 4 && str_eq(pieces[0].as_str(), "METRIC") {
            assert(strings_view(pieces@)[1] == pieces[1]@);
            assert(strings_view(pieces@)[2] == pieces[2]@);
            assert(strings_view(pieces@)[3] == pieces[3]@);
            assert(is_metric_line(ls[i as int]));
            let value = parse_u64(pieces[2].as_str()).unwrap();
            let name = String::from_str(pieces[1].as_str());
            let unit = String::from_str(pieces[3].as_str());
            let ghost prev = out@;
            out.push((name, value, unit));
            assert(entries_view(out@) =~= entries_view(prev).push((name@, value, unit@)));
        } else {
            assert(!is_metric_line(ls[i as int]));
        }
        i = i + 1;
    }
    assert(ls.take(lines.len() as int) =~= ls);
    out
}

/// The map `m` after recording, one after the other, the measurements `es`
/// under their names prefixed by `prefix`.
pub open spec fn report_all(
    m: Map<Seq<char>, (u64, Seq<char>)>,
    prefix: Seq<char>,
    es: Seq<(Seq<char>, u64, Seq<char>)>,
) -> Map<Seq<char>, (u64, Seq<char>)>
    decreases es.len(),
{
    if es.len() == 0 {
        m
    } else {
        let e = es.last();
        report_all(m, prefix, es.drop_last()).insert(prefix + e.0, (e.1, e.2))
    }
}

/// The directory of a benchmark of the suite.
pub fn bench_path(bench: &str) -> (r: String)
    ensures
        r@ == "./target/crablangc-perf/collector/benchmarks/"@ + bench@,
{
    let mut s = String::from_str("./target/crablangc-perf/collector/benchmarks/");
    s.append(bench);
    s
}

impl Metrics {
    /// Records how long the release build took, in milliseconds.
    pub fn record_build(&mut self, millis: u64)
        ensures
            final(self).table() == old(self).table().insert("build"@, (millis, "ms"@)),
            final(self).host_info() == old(self).host_info(),
            final(self).timestamp_secs() == old(self).timestamp_secs(),
            final(self).revision_text() == old(self).revision_text(),
            final(self).perf_revision_text() == old(self).perf_revision_text(),
    {
        self.report("build", millis, String::from_str("ms"));
    }

    /// Records the measurements that `analysis-stats` printed for the
    /// project `name`, each under `analysis-stats/{name}/{metric}`.
    pub fn record_analysis_stats(&mut self, name: &str, output: &str)
        requires
            metric_values_parse(lines_spec(output@)),
        ensures
            final(self).table() == report_all(
                old(self).table(),
                "analysis-stats/"@ + name@ + "/"@,
                metrics_of_lines(lines_spec(output@)),
            ),
            final(self).host_info() == old(self).host_info(),
            final(self).timestamp_secs() == old(self).timestamp_secs(),
            final(self).revision_text() == old(self).revision_text(),
            final(self).perf_revision_text() == old(self).perf_revision_text(),
    {
        let found = parse_metrics(output);
        let ghost es = entries_view(found@);
        let prefix = concat3("analysis-stats/", name, "/");
        let ghost start = self.table();
        let mut i: usize = 0;
        assert(es.take(0) =~= Seq::<(Seq<char>, u64, Seq<char>)>::empty());
        while i < found.len()
            invariant
                es == entries_view(found@),
                i <= found.len(),
                self.table() == report_all(start, prefix@, es.take(i as int)),
                self.host_info() == old(self).host_info(),
                self.timestamp_secs() == old(self).timestamp_secs(),
                self.revision_text() == old(self).revision_text(),
                self.perf_revision_text() == old(self).perf_revision_text(),
            decreases found.len() - i,
        {
            let mut key = String::from_str(prefix.as_str());
            key.append(found[i].0.as_str());
            let unit = String::from_str(found[i].2.as_str());
            assert(es[i as int] == (found[i as int].0@, found[i as int].1, found[i as int].2@));
            self.report(key.as_str(), found[i].1, unit);
            assert(es.take(i + 1).drop_last() =~= es.take(i as int));
            i = i + 1;
        }
        assert(es.take(found.len() as int) =~= es);
    }
}

/// The first line of `ls` that starts with `field`, without `field` and
/// trimmed.
pub open spec fn find_field(ls: Seq<Seq<char>>, field: Seq<char>) -> Option<Seq<char>>
    decreases ls.len(),
{
    if ls.len() == 0 {
        None
    } else if field.is_prefix_of(ls[0]) {
        Some(trim_spec(ls[0].skip(field.len() as int)))
    } else {
        find_field(ls.drop_first(), field)
    }
}

/// Finds the value of `field` in the text of a system file.
pub fn read_field(text: &str, field: &str) -> (r: Option<String>)
    ensures
        match r {
            Some(v) => find_field(lines_spec(text@), field@) == Some(v@),
            None => find_field(lines_spec(text@), field@) is None,
        },
{
    let lines = lines_of(text);
    let ghost ls = lines_spec(text@);
    let mut i: usize = 0;
    assert(ls.skip(0) =~= ls);
    while i < lines.len()
        invariant
            strings_view(lines@) == ls,
            ls == lines_spec(text@),
            i <= lines.len(),
            find_field(ls, field@) == find_field(ls.skip(i as int), field@),
        decreases lines.len() - i,
    {
        assert(lines[i as int]@ == ls[i as int]);
        assert(ls.skip(i as int)[0] == ls[i as int]);
        match strip_prefix(lines[i].as_str(), field) {
            Some(rest) => {
                let t = trim(rest.as_str());
                assert(rest@ == ls[i as int].skip(field@.len() as int));
                assert(t@ == trim_spec(ls[i as int].skip(field@.len() as int)));
                assert(ls.skip(i as int).len() > 0);
                assert(find_field(ls.skip(i as int), field@) == Some(
                    trim_spec(ls[i as int].skip(field@.len() as int)),
                ));
                return Some(t);
            },
            None => {},
        }
        assert(ls.skip(i as int).drop_first() =~= ls.skip(i + 1));
        i = i + 1;
    }
    None
}

/// The description of the host, from the texts of `/etc/os-release`,
/// `/proc/cpuinfo` and `/proc/meminfo`: the pretty name of the system
/// without its quotes, the model name of the processor, and the total
/// memory. The error names the file that lacks its field.
pub fn host_from_files(os_release: &str, cpuinfo: &str, meminfo: &str) -> (r: Result<Host, String>)
    ensures
        match r {
            Ok(h) => {
                &&& find_field(lines_spec(os_release@), "PRETTY_NAME="@) matches Some(os)
                    && h.os@ == trim_end_spec(trim_start_spec(os, '"'), '"')
                &&& find_field(lines_spec(cpuinfo@), "model name"@) matches Some(cpu)
                    && h.cpu@ == trim_spec(trim_start_spec(cpu, ':'))
                &&& find_field(lines_spec(meminfo@), "MemTotal:"@) matches Some(mem) && h.mem@
                    == mem
            },
            Err(e) => {
                ||| find_field(lines_spec(os_release@), "PRETTY_NAME="@) is None && e@
                    == "can't parse /etc/os-release"@
                ||| find_field(lines_spec(os_release@), "PRETTY_NAME="@) is Some && find_field(
                    lines_spec(cpuinfo@),
                    "model name"@,
                ) is None && e@ == "can't parse /proc/cpuinfo"@
                ||| find_field(lines_spec(os_release@), "PRETTY_NAME="@) is Some && find_field(
                    lines_spec(cpuinfo@),
                    "model name"@,
                ) is Some && find_field(lines_spec(meminfo@), "MemTotal:"@) is None && e@
                    == "can't parse /proc/meminfo"@
            },
        },
{
    let os = match read_field(os_release, "PRETTY_NAME=") {
        Some(v) => v,
        None => {
            return Err(String::from_str("can't parse /etc/os-release"));
        },
    };
    let os = trim_end_char(trim_start_char(os.as_str(), '"').as_str(), '"');
    let cpu = match read_field(cpuinfo, "model name") {
        Some(v) => v,
        None => {
            return Err(String::from_str("can't parse /proc/cpuinfo"));
        },
    };
    let cpu = trim(trim_start_char(cpu.as_str(), ':').as_str());
    let mem = match read_field(meminfo, "MemTotal:") {
        Some(v) => v,
        None => {
            return Err(String::from_str("can't parse /proc/meminfo"));
        },
    };
    Ok(Host { os, cpu, mem })
}


/// What a report writes is what the table then holds under that name, and
/// the other names keep their measurements: `after` is `before` after
/// `report(name, value, unit)`.
pub proof fn lemma_report_read_back(before: Metrics, after: Metrics, name: Seq<char>, value: u64, unit: Seq<char>)
    requires
        after.table() == before.table().insert(name, (value, unit)),
    ensures
        after.table().contains_key(name),
        after.table()[name] == (value, unit),
        forall|k: Seq<char>| k != name ==> (after.table().contains_key(k) == before.table().contains_key(k)),
        forall|k: Seq<char>| k != name && before.table().contains_key(k) ==> after.table()[k] == before.table()[k],
{
}

} // verus!
