//! Small operations on strings that the rest of the library builds on.
use vstd::prelude::*;

verus! {

/// The text that `format!("{:?}", s)` produces for the string `s`: the string
/// between double quotes, with its special characters escaped.
pub uninterp spec fn debug_str(s: Seq<char>) -> Seq<char>;

/// Whether the two string slices hold the same characters.
pub fn str_eq(a: &str, b: &str) -> (r: bool)
    ensures
        r == (a@ == b@),
{
    let n = a.unicode_len();
    if n != b.unicode_len() {
        return false;
    }
    let mut i: usize = 0;
    while i < n
        invariant
            n == a@.len(),
            n == b@.len(),
            i <= n,
            forall|k: int| 0 <= k < i ==> a@[k] == b@[k],
        decreases n - i,
    {
        if a.get_char(i) != b.get_char(i) {
            return false;
        }
        i = i + 1;
    }
    assert(a@ =~= b@);
    true
}

/// `format!("{:?}", s)` (std's `Debug` for `str`); its result is named by
/// `debug_str`, a function of the characters of `s` alone.
#[verifier::external_body]
pub fn debug_quote(s: &str) -> (r: String)
    ensures
        r@ == debug_str(s@),
{
    format!("{:?}", s)
}

/// `s.push(c)` (std's `String::push`): appends one character.
#[verifier::external_body]
pub fn push_char(s: &mut String, c: char)
    ensures
        final(s)@ == old(s)@.push(c),
{
    s.push(c)
}

/// Whether the first character of `s` is `c`.
pub fn starts_with_char(s: &str, c: char) -> (r: bool)
    ensures
        r == (s@.len() > 0 && s@[0] == c),
{
    let n = s.unicode_len();
    if n == 0 {
        false
    } else {
        s.get_char(0) == c
    }
}

/// Whether the last character of `s` is `c`.
pub fn ends_with_char(s: &str, c: char) -> (r: bool)
    ensures
        r == (s@.len() > 0 && s@[s@.len() - 1] == c),
{
    let n = s.unicode_len();
    if n == 0 {
        false
    } else {
        s.get_char(n - 1) == c
    }
}

/// The string `a` followed by `b` and `c`.
pub fn concat3(a: &str, b: &str, c: &str) -> (r: String)
    ensures
        r@ == a@ + b@ + c@,
{
    let mut s = String::from_str(a);
    s.append(b);
    s.append(c);
    s
}

/// The pieces of `s` between the occurrences of `c`: one more piece than
/// there are occurrences, each possibly empty.
pub open spec fn split_char(s: Seq<char>, c: char) -> Seq<Seq<char>>
    decreases s.len(),
{
    if s.len() == 0 {
        seq![Seq::<char>::empty()]
    } else {
        let rest = split_char(s.drop_last(), c);
        if s.last() == c {
            rest.push(Seq::<char>::empty())
        } else {
            rest.update(rest.len() - 1, rest.last().push(s.last()))
        }
    }
}

/// There is always at least one piece.
pub proof fn lemma_split_char_nonempty(s: Seq<char>, c: char)
    ensures
        split_char(s, c).len() >= 1,
    decreases s.len(),
{
    if s.len() > 0 {
        lemma_split_char_nonempty(s.drop_last(), c);
    }
}

/// `l` without the carriage return that ends it, if one does.
pub open spec fn strip_cr(l: Seq<char>) -> Seq<char> {
    if l.len() > 0 && l.last() == '\r' {
        l.drop_last()
    } else {
        l
    }
}

/// The lines of `s`, as `str::lines` gives them: split at `\n`, each line
/// that ended with `\n` also without a `\r` before it, and no final empty
/// line.
pub open spec fn lines_spec(s: Seq<char>) -> Seq<Seq<char>> {
    let p = split_char(s, '\n');
    p.take(p.len() - 1).map_values(|l: Seq<char>| strip_cr(l)) + if p.last().len() == 0 {
        Seq::<Seq<char>>::empty()
    } else {
        seq![p.last()]
    }
}

/// The views of a list of strings.
pub open spec fn strings_view(v: Seq<String>) -> Seq<Seq<char>> {
    v.map_values(|s: String| s@)
}

/// `s` without its last character.
pub fn drop_last_char(s: &str) -> (r: String)
    requires
        s@.len() > 0,
    ensures
        r@ == s@.drop_last(),
{
    let n = s.unicode_len();
    let t = s.substring_char(0, n - 1);
    assert(t@ =~= s@.drop_last());
    String::from_str(t)
}

/// The pieces of `s` between the occurrences of `c`.
pub fn split_by_char(s: &str, c: char) -> (r: Vec<String>)
    ensures
        strings_view(r@) == split_char(s@, c),
{
    let n = s.unicode_len();
    let mut out: Vec<String> = Vec::new();
    let mut cur = String::new();
    let mut i: usize = 0;
    proof {
        assert(s@.take(0) =~= Seq::<char>::empty());
        assert(strings_view(out@) =~= Seq::<Seq<char>>::empty());
    }
    while i < n
        invariant
            n == s@.len(),
            i <= n,
            strings_view(out@).push(cur@) == split_char(s@.take(i as int), c),
        decreases n - i,
    {
        let ch = s.get_char(i);
        let ghost before = s@.take(i as int);
        assert(s@.take(i + 1).drop_last() =~= before);
        assert(s@.take(i + 1).last() == ch);
        proof {
            lemma_split_char_nonempty(before, c);
        }
        if ch == c {
            out.push(cur);
            cur = String::new();
            assert(strings_view(out@).push(cur@) =~= split_char(s@.take(i + 1), c));
        } else {
            push_char(&mut cur, ch);
            assert(strings_view(out@).push(cur@) =~= split_char(s@.take(i + 1), c));
        }
        i = i + 1;
    }
    assert(s@.take(n as int) =~= s@);
    out.push(cur);
    r_eq(out)
}

fn r_eq(v: Vec<String>) -> (r: Vec<String>)
    ensures
        r == v,
{
    v
}

/// The lines of `s`, as `str::lines` gives them.
pub fn lines_of(s: &str) -> (r: Vec<String>)
    ensures
        strings_view(r@) == lines_spec(s@),
{
    let pieces = split_by_char(s, '\n');
    let ghost p = split_char(s@, '\n');
    proof {
        lemma_split_char_nonempty(s@, '\n');
    }
    let k = pieces.len();
    assert(strings_view(pieces@) == p);
    assert(k == p.len());
    let mut out: Vec<String> = Vec::new();
    let mut i: usize = 0;
    while i + 1 < k
        invariant
            k == pieces.len(),
            k >= 1,
            strings_view(pieces@) == p,
            i + 1 <= k,
            strings_view(out@) == p.take(i as int).map_values(|l: Seq<char>| strip_cr(l)),
        decreases k - i,
    {
        let l = pieces[i].as_str();
        assert(l@ == p[i as int]);
        let stripped = if ends_with_char(l, '\r') {
            drop_last_char(l)
        } else {
            String::from_str(l)
        };
        assert(stripped@ == strip_cr(p[i as int]));
        let ghost prev = out@;
        out.push(stripped);
        assert(strings_view(out@) =~= strings_view(prev).push(stripped@));
        assert(p.take(i + 1).map_values(|l: Seq<char>| strip_cr(l)) =~= p.take(i as int).map_values(
            |l: Seq<char>| strip_cr(l),
        ).push(strip_cr(p[i as int])));
        i = i + 1;
    }
    let last = pieces[k - 1].as_str();
    assert(last@ == p.last());
    if last.unicode_len() > 0 {
        out.push(String::from_str(last));
    }
    assert(strings_view(out@) =~= lines_spec(s@));
    out
}

/// Whether `c` is whitespace, as `char::is_whitespace` says: the characters
/// with the Unicode property White_Space.
pub open spec fn is_whitespace_spec(c: char) -> bool {
    ||| c == '\t' || c == '\n' || c == '\u{0B}' || c == '\u{0C}' || c == '\r' || c == ' '
    ||| c == '\u{85}' || c == '\u{A0}' || c == '\u{1680}'
    ||| ('\u{2000}' <= c && c <= '\u{200A}')
    ||| c == '\u{2028}' || c == '\u{2029}' || c == '\u{202F}' || c == '\u{205F}' || c == '\u{3000}'
}

/// Whether `c` is whitespace.
pub fn is_whitespace(c: char) -> (r: bool)
    ensures
        r == is_whitespace_spec(c),
{
    c == '\t' || c == '\n' || c == '\u{0B}' || c == '\u{0C}' || c == '\r' || c == ' ' || c
        == '\u{85}' || c == '\u{A0}' || c == '\u{1680}' || ('\u{2000}' <= c && c <= '\u{200A}')
        || c == '\u{2028}' || c == '\u{2029}' || c == '\u{202F}' || c == '\u{205F}' || c
        == '\u{3000}'
}

/// The number of leading characters of `s` that satisfy `p`... for whitespace.
pub open spec fn leading_ws(s: Seq<char>) -> nat
    decreases s.len(),
{
    if s.len() > 0 && is_whitespace_spec(s[0]) {
        1 + leading_ws(s.drop_first())
    } else {
        0
    }
}

/// The number of trailing whitespace characters of `s`.
pub open spec fn trailing_ws(s: Seq<char>) -> nat
    decreases s.len(),
{
    if s.len() > 0 && is_whitespace_spec(s.last()) {
        1 + trailing_ws(s.drop_last())
    } else {
        0
    }
}

/// `s` without its leading and trailing whitespace, as `str::trim` gives it.
pub open spec fn trim_spec(s: Seq<char>) -> Seq<char> {
    let t = s.skip(leading_ws(s) as int);
    t.take(t.len() - trailing_ws(t))
}

pub proof fn lemma_leading_ws_bound(s: Seq<char>)
    ensures
        leading_ws(s) <= s.len(),
    decreases s.len(),
{
    if s.len() > 0 && is_whitespace_spec(s[0]) {
        lemma_leading_ws_bound(s.drop_first());
    }
}

pub proof fn lemma_trailing_ws_bound(s: Seq<char>)
    ensures
        trailing_ws(s) <= s.len(),
    decreases s.len(),
{
    if s.len() > 0 && is_whitespace_spec(s.last()) {
        lemma_trailing_ws_bound(s.drop_last());
    }
}

/// `s` without its leading and trailing whitespace.
pub fn trim(s: &str) -> (r: String)
    ensures
        r@ == trim_spec(s@),
{
    let n = s.unicode_len();
    let mut a: usize = 0;
    assert(s@.skip(0) =~= s@);
    while a < n && is_whitespace(s.get_char(a))
        invariant
            n == s@.len(),
            a <= n,
            leading_ws(s@) == a + leading_ws(s@.skip(a as int)),
        decreases n - a,
    {
        assert(s@.skip(a as int).drop_first() =~= s@.skip(a + 1));
        a = a + 1;
    }
    assert(leading_ws(s@.skip(a as int)) == 0) by {
        if a < n {
            assert(s@.skip(a as int)[0] == s@[a as int]);
        }
    }
    let ghost t = s@.skip(a as int);
    let mut b: usize = n;
    proof {
        assert(t.take(t.len() as int) =~= t);
    }
    while b > a && is_whitespace(s.get_char(b - 1))
        invariant
            n == s@.len(),
            a <= b <= n,
            t == s@.skip(a as int),
            trailing_ws(t) == (n - b) + trailing_ws(t.take(b - a)),
        decreases b,
    {
        assert(t.take(b - a).drop_last() =~= t.take(b - a - 1));
        assert(t.take(b - a).last() == s@[b - 1]);
        b = b - 1;
    }
    assert(trailing_ws(t.take(b - a)) == 0) by {
        if b > a {
            assert(t.take(b - a).last() == s@[b - 1]);
        }
    }
    let r = s.substring_char(a, b);
    assert(r@ =~= trim_spec(s@));
    String::from_str(r)
}


/// The number of times `c` repeats at the start of `s`.
pub open spec fn leading_count(s: Seq<char>, c: char) -> nat
    decreases s.len(),
{
    if s.len() > 0 && s[0] == c {
        1 + leading_count(s.drop_first(), c)
    } else {
        0
    }
}

/// The number of times `c` repeats at the end of `s`.
pub open spec fn trailing_count(s: Seq<char>, c: char) -> nat
    decreases s.len(),
{
    if s.len() > 0 && s.last() == c {
        1 + trailing_count(s.drop_last(), c)
    } else {
        0
    }
}

/// `s` without the repetitions of `c` at its start, as
/// `str::trim_start_matches` gives it for a character.
pub open spec fn trim_start_spec(s: Seq<char>, c: char) -> Seq<char> {
    s.skip(leading_count(s, c) as int)
}

/// `s` without the repetitions of `c` at its end, as
/// `str::trim_end_matches` gives it for a character.
pub open spec fn trim_end_spec(s: Seq<char>, c: char) -> Seq<char> {
    s.take(s.len() - trailing_count(s, c))
}

pub proof fn lemma_leading_count_bound(s: Seq<char>, c: char)
    ensures
        leading_count(s, c) <= s.len(),
    decreases s.len(),
{
    if s.len() > 0 && s[0] == c {
        lemma_leading_count_bound(s.drop_first(), c);
    }
}

pub proof fn lemma_trailing_count_bound(s: Seq<char>, c: char)
    ensures
        trailing_count(s, c) <= s.len(),
    decreases s.len(),
{
    if s.len() > 0 && s.last() == c {
        lemma_trailing_count_bound(s.drop_last(), c);
    }
}

/// `s` without the repetitions of `c` at its start.
pub fn trim_start_char(s: &str, c: char) -> (r: String)
    ensures
        r@ == trim_start_spec(s@, c),
{
    let n = s.unicode_len();
    let mut a: usize = 0;
    assert(s@.skip(0) =~= s@);
    while a < n && s.get_char(a) == c
        invariant
            n == s@.len(),
            a <= n,
            leading_count(s@, c) == a + leading_count(s@.skip(a as int), c),
        decreases n - a,
    {
        assert(s@.skip(a as int).drop_first() =~= s@.skip(a + 1));
        a = a + 1;
    }
    assert(leading_count(s@.skip(a as int), c) == 0) by {
        if a < n {
            assert(s@.skip(a as int)[0] == s@[a as int]);
        }
    }
    let r = s.substring_char(a, n);
    assert(r@ =~= trim_start_spec(s@, c));
    String::from_str(r)
}

/// `s` without the repetitions of `c` at its end.
pub fn trim_end_char(s: &str, c: char) -> (r: String)
    ensures
        r@ == trim_end_spec(s@, c),
{
    let n = s.unicode_len();
    let mut b: usize = n;
    assert(s@.take(n as int) =~= s@);
    while b > 0 && s.get_char(b - 1) == c
        invariant
            n == s@.len(),
            b <= n,
            trailing_count(s@, c) == (n - b) + trailing_count(s@.take(b as int), c),
        decreases b,
    {
        assert(s@.take(b as int).drop_last() =~= s@.take(b - 1));
        b = b - 1;
    }
    assert(trailing_count(s@.take(b as int), c) == 0) by {
        if b > 0 {
            assert(s@.take(b as int).last() == s@[b - 1]);
        }
    }
    let r = s.substring_char(0, b);
    assert(r@ =~= trim_end_spec(s@, c));
    String::from_str(r)
}

/// `s` without `prefix`, if it starts with it, as `str::strip_prefix`
/// gives it.
pub fn strip_prefix(s: &str, prefix: &str) -> (r: Option<String>)
    ensures
        r matches Some(t) ==> prefix@.is_prefix_of(s@) && t@ == s@.skip(prefix@.len() as int),
        r is None ==> !prefix@.is_prefix_of(s@),
{
    let n = s.unicode_len();
    let m = prefix.unicode_len();
    if m > n {
        return None;
    }
    let mut i: usize = 0;
    while i < m
        invariant
            n == s@.len(),
            m == prefix@.len(),
            m <= n,
            i <= m,
            forall|k: int| 0 <= k < i ==> s@[k] == prefix@[k],
        decreases m - i,
    {
        if s.get_char(i) != prefix.get_char(i) {
            return None;
        }
        i = i + 1;
    }
    let r = s.substring_char(m, n);
    assert(r@ =~= s@.skip(m as int));
    Some(String::from_str(r))
}


/// The strings `parts` with `sep` between each two of them, as
/// `[String]::join` gives them.
pub open spec fn join(parts: Seq<Seq<char>>, sep: Seq<char>) -> Seq<char>
    decreases parts.len(),
{
    if parts.len() == 0 {
        Seq::empty()
    } else if parts.len() == 1 {
        parts[0]
    } else {
        join(parts.drop_last(), sep) + sep + parts.last()
    }
}

/// Joins `parts` with `sep` between each two of them.
pub fn join_strings(parts: &Vec<String>, sep: &str) -> (r: String)
    ensures
        r@ == join(strings_view(parts@), sep@),
{
    let mut out = String::new();
    let mut i: usize = 0;
    let ghost ps = strings_view(parts@);
    assert(ps.take(0) =~= Seq::<Seq<char>>::empty());
    while i < parts.len()
        invariant
            ps == strings_view(parts@),
            i <= parts.len(),
            out@ == join(ps.take(i as int), sep@),
        decreases parts.len() - i,
    {
        assert(ps.take(i + 1).drop_last() =~= ps.take(i as int));
        assert(ps[i as int] == parts[i as int]@);
        if i > 0 {
            out.append(sep);
        } else {
            assert(out@ =~= Seq::<char>::empty());
        }
        out.append(parts[i].as_str());
        i = i + 1;
        proof {
            if i == 1 {
                assert(out@ =~= ps.take(1)[0]);
            }
        }
    }
    assert(ps.take(parts.len() as int) =~= ps);
    out
}


/// Whether `s` ends with `suffix`, as `str::ends_with` says.
pub fn ends_with_str(s: &str, suffix: &str) -> (r: bool)
    ensures
        r == (suffix@.len() <= s@.len() && s@.skip(s@.len() - suffix@.len()) == suffix@),
{
    let n = s.unicode_len();
    let m = suffix.unicode_len();
    if m > n {
        return false;
    }
    let mut i: usize = 0;
    while i < m
        invariant
            n == s@.len(),
            m == suffix@.len(),
            m <= n,
            i <= m,
            forall|k: int| 0 <= k < i ==> s@[n - m + k] == suffix@[k],
        decreases m - i,
    {
        if s.get_char(n - m + i) != suffix.get_char(i) {
            assert(s@.skip(n - m)[i as int] != suffix@[i as int]);
            return false;
        }
        i = i + 1;
    }
    assert(s@.skip(n - m) =~= suffix@);
    true
}

/// Whether `s` starts with `prefix`, as `str::starts_with` says.
pub fn starts_with_str(s: &str, prefix: &str) -> (r: bool)
    ensures
        r == prefix@.is_prefix_of(s@),
{
    strip_prefix(s, prefix).is_some()
}


/// The ASCII character with code `code`.
pub fn char_from_ascii(code: u32) -> (r: char)
    requires
        code < 128,
    ensures
        r == code as char,
{
    (code as u8) as char
}

} // verus!
