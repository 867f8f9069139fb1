//! The `#[clippy::..]` attributes: which ones exist, which are deprecated,
//! how they are found among an item's attributes, and the stack of numeric
//! limits that nested attributes set.
use vstd::prelude::*;
use crate::decimal::{parse_u64, parse_u64_spec};
use crate::diag::{Applicability, Diagnostic, DiagModel, Span, Suggestion, diags_view, plain_diag, make_plain, lemma_diags_push};
use crate::text::{str_eq, concat3};

verus! {

/// Deprecation status of attributes known by Clippy.
pub enum DeprecationStatus {
    /// Attribute is deprecated
    Deprecated,
    /// Attribute is deprecated and was replaced by the named attribute
    Replaced(&'static str),
    /// Attribute is current
    NotDeprecated,
}

/// The status of the Clippy attribute `name` in the table of known
/// attributes, `None` where the table does not know it.
pub open spec fn builtin_status(name: Seq<char>) -> Option<DeprecationStatus> {
    if name == "author"@ {
        Some(DeprecationStatus::NotDeprecated)
    } else if name == "version"@ {
        Some(DeprecationStatus::NotDeprecated)
    } else if name == "cognitive_complexity"@ {
        Some(DeprecationStatus::NotDeprecated)
    } else if name == "cyclomatic_complexity"@ {
        Some(DeprecationStatus::Replaced("cognitive_complexity"))
    } else if name == "dump"@ {
        Some(DeprecationStatus::NotDeprecated)
    } else if name == "msrv"@ {
        Some(DeprecationStatus::NotDeprecated)
    } else if name == "has_significant_drop"@ {
        Some(DeprecationStatus::NotDeprecated)
    } else {
        None
    }
}

/// Looks `name` up in the table of attributes known by Clippy.
pub fn builtin_attribute_status(name: &str) -> (r: Option<DeprecationStatus>)
    ensures
        r == builtin_status(name@),
{
    if str_eq(name, "author") {
        Some(DeprecationStatus::NotDeprecated)
    } else if str_eq(name, "version") {
        Some(DeprecationStatus::NotDeprecated)
    } else if str_eq(name, "cognitive_complexity") {
        Some(DeprecationStatus::NotDeprecated)
    } else if str_eq(name, "cyclomatic_complexity") {
        Some(DeprecationStatus::Replaced("cognitive_complexity"))
    } else if str_eq(name, "dump") {
        Some(DeprecationStatus::NotDeprecated)
    } else if str_eq(name, "msrv") {
        Some(DeprecationStatus::NotDeprecated)
    } else if str_eq(name, "has_significant_drop") {
        Some(DeprecationStatus::NotDeprecated)
    } else {
        None
    }
}

/// One segment of an attribute's path.
pub struct PathSegment {
    pub name: String,
    pub span: Span,
}

/// An attribute, as the checks read it: whether it is a normal attribute
/// (not a doc comment), its path, the string value after `=` if it has one,
/// the names of the items of its list form `#[name(a, b)]` if it has one, and
/// its span.
pub struct Attribute {
    pub is_normal: bool,
    pub segments: Vec<PathSegment>,
    pub value: Option<String>,
    pub meta_items: Option<Vec<String>>,
    pub span: Span,
}

/// Where `a` is an attribute `#[clippy::x ..]`: the status of `x`.
pub open spec fn clippy_status(a: Attribute) -> Option<Option<DeprecationStatus>> {
    if a.is_normal && a.segments@.len() == 2 && a.segments@[0].name@ == "clippy"@ {
        Some(builtin_status(a.segments@[1].name@))
    } else {
        None
    }
}

/// Whether `a` is the current Clippy attribute `name`.
pub open spec fn attr_selected(a: Attribute, name: Seq<char>) -> bool {
    match clippy_status(a) {
        Some(Some(DeprecationStatus::NotDeprecated)) => a.segments@[1].name@ == name,
        _ => false,
    }
}

/// What is reported on looking at `a`: an unknown or a deprecated Clippy
/// attribute, the latter with the attribute that replaces it.
pub open spec fn attr_diags(a: Attribute) -> Seq<DiagModel> {
    match clippy_status(a) {
        Some(None) => seq![plain_diag(a.segments@[1].span, "usage of unknown attribute"@)],
        Some(Some(DeprecationStatus::Deprecated)) => seq![
            plain_diag(a.segments@[1].span, "usage of deprecated attribute"@),
        ],
        Some(Some(DeprecationStatus::Replaced(new_name))) => seq![
            DiagModel {
                span: a.segments@[1].span,
                msg: "usage of deprecated attribute"@,
                note: None,
                suggestion: Some(
                    (a.segments@[1].span, "consider using"@, new_name@, Applicability::MachineApplicable),
                ),
            },
        ],
        _ => seq![],
    }
}

/// Looks at one attribute: reports on it, and says whether it is the
/// current Clippy attribute `name`.
pub fn check_attr(a: &Attribute, name: &str, diags: &mut Vec<Diagnostic>) -> (r: bool)
    ensures
        r == attr_selected(*a, name@),
        diags_view(final(diags)@) == diags_view(old(diags)@) + attr_diags(*a),
{
    proof {
        assert(diags_view(old(diags)@) + seq![] =~= diags_view(old(diags)@));
    }
    if !(a.is_normal && a.segments.len() == 2 && str_eq(a.segments[0].name.as_str(), "clippy")) {
        return false;
    }
    let seg = &a.segments[1];
    match builtin_attribute_status(seg.name.as_str()) {
        None => {
            let d = make_plain(seg.span, String::from_str("usage of unknown attribute"));
            proof {
                lemma_diags_push(diags@, d);
            }
            diags.push(d);
            false
        },
        Some(DeprecationStatus::Deprecated) => {
            let d = make_plain(seg.span, String::from_str("usage of deprecated attribute"));
            proof {
                lemma_diags_push(diags@, d);
            }
            diags.push(d);
            false
        },
        Some(DeprecationStatus::Replaced(new_name)) => {
            let d = Diagnostic {
                span: seg.span,
                msg: String::from_str("usage of deprecated attribute"),
                note: None,
                suggestion: Some(
                    Suggestion {
                        span: seg.span,
                        msg: String::from_str("consider using"),
                        replacement: String::from_str(new_name),
                        applicability: Applicability::MachineApplicable,
                    },
                ),
            };
            proof {
                lemma_diags_push(diags@, d);
            }
            diags.push(d);
            false
        },
        Some(DeprecationStatus::NotDeprecated) => str_eq(seg.name.as_str(), name),
    }
}

/// The positions, in order, of the attributes among `attrs` that are the
/// current Clippy attribute `name`.
pub open spec fn selected_indices(attrs: Seq<Attribute>, name: Seq<char>) -> Seq<usize>
    decreases attrs.len(),
{
    if attrs.len() == 0 {
        seq![]
    } else {
        let rest = selected_indices(attrs.drop_last(), name);
        if attr_selected(attrs.last(), name) {
            rest.push((attrs.len() - 1) as usize)
        } else {
            rest
        }
    }
}

/// What is reported on looking at each of `attrs` in turn.
pub open spec fn all_attr_diags(attrs: Seq<Attribute>) -> Seq<DiagModel>
    decreases attrs.len(),
{
    if attrs.len() == 0 {
        seq![]
    } else {
        all_attr_diags(attrs.drop_last()) + attr_diags(attrs.last())
    }
}

/// The positions of the attributes among `attrs` that are the current Clippy
/// attribute `name`; reports on unknown and deprecated Clippy attributes.
pub fn get_attr(attrs: &Vec<Attribute>, name: &str, diags: &mut Vec<Diagnostic>) -> (r: Vec<usize>)
    ensures
        r@ == selected_indices(attrs@, name@),
        diags_view(final(diags)@) == diags_view(old(diags)@) + all_attr_diags(attrs@),
{
    let mut r: Vec<usize> = Vec::new();
    let mut i: usize = 0;
    while i < attrs.len()
        invariant
            i <= attrs.len(),
            r@ == selected_indices(attrs@.take(i as int), name@),
            diags_view(diags@) == diags_view(old(diags)@) + all_attr_diags(attrs@.take(i as int)),
        decreases attrs.len() - i,
    {
        assert(attrs@.take(i + 1).drop_last() =~= attrs@.take(i as int));
        assert(attrs@.take(i + 1).last() == attrs@[i as int]);
        let ghost before = diags_view(diags@);
        if check_attr(&attrs[i], name, diags) {
            r.push(i);
        }
        i = i + 1;
        assert(diags_view(diags@) =~= diags_view(old(diags)@) + all_attr_diags(
            attrs@.take(i as int),
        ));
    }
    assert(attrs@.take(attrs.len() as int) =~= attrs@);
    r
}

/// The limit that `a` sets, where it is the Clippy attribute `name` with a
/// number as its value.
pub open spec fn attr_limit(a: Attribute, name: Seq<char>) -> Option<u64> {
    if attr_selected(a, name) {
        match a.value {
            Some(v) => parse_u64_spec(v@),
            None => None,
        }
    } else {
        None
    }
}

/// What is reported on reading a limit from `a`: first what looking at it
/// reports, then, where it is the attribute `name`, a value that is no number
/// or a missing value.
pub open spec fn limit_diags(a: Attribute, name: Seq<char>) -> Seq<DiagModel> {
    attr_diags(a) + if attr_selected(a, name) {
        match a.value {
            Some(v) => if parse_u64_spec(v@) is Some {
                seq![]
            } else {
                seq![plain_diag(a.span, "not a number"@)]
            },
            None => seq![plain_diag(a.span, "bad clippy attribute"@)],
        }
    } else {
        seq![]
    }
}

/// The limits that `attrs` set, in order.
pub open spec fn attrs_limits(attrs: Seq<Attribute>, name: Seq<char>) -> Seq<u64>
    decreases attrs.len(),
{
    if attrs.len() == 0 {
        seq![]
    } else {
        let rest = attrs_limits(attrs.drop_last(), name);
        match attr_limit(attrs.last(), name) {
            Some(v) => rest.push(v),
            None => rest,
        }
    }
}

/// What is reported on reading the limits of `attrs`.
pub open spec fn attrs_limit_diags(attrs: Seq<Attribute>, name: Seq<char>) -> Seq<DiagModel>
    decreases attrs.len(),
{
    if attrs.len() == 0 {
        seq![]
    } else {
        attrs_limit_diags(attrs.drop_last(), name) + limit_diags(attrs.last(), name)
    }
}

/// Reads the limits that `attrs` set for `name`, reporting as it goes.
fn parse_attrs(attrs: &Vec<Attribute>, name: &str, diags: &mut Vec<Diagnostic>) -> (r: Vec<u64>)
    ensures
        r@ == attrs_limits(attrs@, name@),
        diags_view(final(diags)@) == diags_view(old(diags)@) + attrs_limit_diags(attrs@, name@),
{
    let mut r: Vec<u64> = Vec::new();
    let mut i: usize = 0;
    while i < attrs.len()
        invariant
            i <= attrs.len(),
            r@ == attrs_limits(attrs@.take(i as int), name@),
            diags_view(diags@) == diags_view(old(diags)@) + attrs_limit_diags(
                attrs@.take(i as int),
                name@,
            ),
        decreases attrs.len() - i,
    {
        assert(attrs@.take(i + 1).drop_last() =~= attrs@.take(i as int));
        assert(attrs@.take(i + 1).last() == attrs@[i as int]);
        let a = &attrs[i];
        let ghost mid0 = diags_view(diags@);
        if check_attr(a, name, diags) {
            match &a.value {
                Some(v) => match parse_u64(v.as_str()) {
                    Some(value) => {
                        r.push(value);
                    },
                    None => {
                        let d = make_plain(a.span, String::from_str("not a number"));
                        proof {
                            lemma_diags_push(diags@, d);
                        }
                        diags.push(d);
                    },
                },
                None => {
                    let d = make_plain(a.span, String::from_str("bad clippy attribute"));
                    proof {
                        lemma_diags_push(diags@, d);
                    }
                    diags.push(d);
                },
            }
        }
        i = i + 1;
        assert(diags_view(diags@) =~= diags_view(old(diags)@) + attrs_limit_diags(
            attrs@.take(i as int),
            name@,
        ));
    }
    assert(attrs@.take(attrs.len() as int) =~= attrs@);
    r
}

/// Every position that `selected_indices` gives lies within the list.
pub proof fn lemma_selected_in_bounds(attrs: Seq<Attribute>, name: Seq<char>)
    ensures
        forall|j: int|
            0 <= j < selected_indices(attrs, name).len() ==> #[trigger] selected_indices(
                attrs,
                name,
            )[j] < attrs.len(),
    decreases attrs.len(),
{
    if attrs.len() > 0 {
        lemma_selected_in_bounds(attrs.drop_last(), name);
        let rest = selected_indices(attrs.drop_last(), name);
        assert forall|j: int| 0 <= j < selected_indices(attrs, name).len() implies #[trigger] selected_indices(
            attrs,
            name,
        )[j] < attrs.len() by {
            if j < rest.len() {
                assert(selected_indices(attrs, name)[j] == rest[j]);
            }
        }
    }
}

/// The report on a further definition of the attribute `name`, at `dup`,
/// with a note at the first one, `first`.
pub open spec fn duplicate_diag(dup: Span, first: Span, name: Seq<char>) -> DiagModel {
    DiagModel {
        span: dup,
        msg: "`"@ + name + "` is defined multiple times"@,
        note: Some((first, "first definition found here"@)),
        suggestion: None,
    }
}

/// The position of the first attribute among `attrs` that is the current
/// Clippy attribute `name`, if there is one.
pub open spec fn first_selected(attrs: Seq<Attribute>, name: Seq<char>) -> Option<usize> {
    if selected_indices(attrs, name).len() == 0 {
        None
    } else {
        Some(selected_indices(attrs, name)[0])
    }
}

/// What looking for the one attribute `name` among `attrs` reports: for each
/// attribute in turn, what looking at it reports, then, where it is a further
/// `name` after the first, that `name` is defined more than once, with a note
/// at the first.
pub open spec fn unique_attr_diags(attrs: Seq<Attribute>, name: Seq<char>) -> Seq<DiagModel>
    decreases attrs.len(),
{
    if attrs.len() == 0 {
        seq![]
    } else {
        let pre = attrs.drop_last();
        let a = attrs.last();
        unique_attr_diags(pre, name) + attr_diags(a) + match first_selected(pre, name) {
            Some(f) => if attr_selected(a, name) {
                seq![duplicate_diag(a.span, pre[f as int].span, name)]
            } else {
                seq![]
            },
            None => seq![],
        }
    }
}

/// The first attribute among `attrs` that is the current Clippy attribute
/// `name`; reports each further one as defined more than once, with a note at
/// the first, right after what looking at that attribute reports.
pub fn get_unique_attr(attrs: &Vec<Attribute>, name: &str, diags: &mut Vec<Diagnostic>) -> (r:
    Option<usize>)
    ensures
        r == first_selected(attrs@, name@),
        diags_view(final(diags)@) == diags_view(old(diags)@) + unique_attr_diags(attrs@, name@),
{
    let mut first: Option<usize> = None;
    let mut i: usize = 0;
    while i < attrs.len()
        invariant
            i <= attrs.len(),
            first == first_selected(attrs@.take(i as int), name@),
            first matches Some(f) ==> f < i,
            diags_view(diags@) == diags_view(old(diags)@) + unique_attr_diags(
                attrs@.take(i as int),
                name@,
            ),
        decreases attrs.len() - i,
    {
        let ghost pre = attrs@.take(i as int);
        let ghost full = attrs@.take(i + 1);
        assert(full.drop_last() =~= pre);
        assert(full.last() == attrs@[i as int]);
        proof {
            lemma_selected_in_bounds(pre, name@);
        }
        let ghost mid = diags_view(diags@);
        let a = &attrs[i];
        let selected = check_attr(a, name, diags);
        match first {
            Some(f) => {
                assert(pre[f as int] == attrs@[f as int]);
                if selected {
                    let msg = concat3("`", name, "` is defined multiple times");
                    let d = Diagnostic {
                        span: a.span,
                        msg,
                        note: Some((attrs[f].span, String::from_str("first definition found here"))),
                        suggestion: None,
                    };
                    proof {
                        lemma_diags_push(diags@, d);
                    }
                    diags.push(d);
                }
            },
            None => {
                if selected {
                    first = Some(i);
                }
            },
        }
        i = i + 1;
        assert(diags_view(diags@) =~= diags_view(old(diags)@) + unique_attr_diags(
            attrs@.take(i as int),
            name@,
        ));
    }
    assert(attrs@.take(attrs.len() as int) =~= attrs@);
    first
}

/// A stack of numeric limits: the top one is the limit in force.
pub struct LimitStack {
    stack: Vec<u64>,
}

impl View for LimitStack {
    type V = Seq<u64>;

    closed spec fn view(&self) -> Seq<u64> {
        self.stack@
    }
}

/// Whether popping the limits `vals`, one after the other and each checked
/// against the value popped, succeeds on the stack `s`.
pub open spec fn pops_match(s: Seq<u64>, vals: Seq<u64>) -> bool {
    &&& vals.len() <= s.len()
    &&& forall|j: int| 0 <= j < vals.len() ==> s[s.len() - 1 - j] == #[trigger] vals[j]
}

impl LimitStack {
    /// A stack that holds `limit` alone.
    pub fn new(limit: u64) -> (r: Self)
        ensures
            r@ == seq![limit],
    {
        let mut stack = Vec::new();
        stack.push(limit);
        LimitStack { stack }
    }

    /// The limit in force.
    pub fn limit(&self) -> (r: u64)
        requires
            self@.len() > 0,
        ensures
            r == self@.last(),
    {
        self.stack[self.stack.len() - 1]
    }

    /// Pushes the limits that the attributes `name` among `attrs` set,
    /// reporting on the attributes as it goes.
    pub fn push_attrs(&mut self, attrs: &Vec<Attribute>, name: &str, diags: &mut Vec<Diagnostic>)
        ensures
            final(self)@ == old(self)@ + attrs_limits(attrs@, name@),
            diags_view(final(diags)@) == diags_view(old(diags)@) + attrs_limit_diags(
                attrs@,
                name@,
            ),
    {
        let vals = parse_attrs(attrs, name, diags);
        let mut i: usize = 0;
        while i < vals.len()
            invariant
                i <= vals.len(),
                self.stack@ == old(self).stack@ + vals@.take(i as int),
            decreases vals.len() - i,
        {
            self.stack.push(vals[i]);
            i = i + 1;
            assert(self.stack@ =~= old(self).stack@ + vals@.take(i as int));
        }
        assert(vals@.take(vals.len() as int) =~= vals@);
    }

    /// Pops the limits that the attributes `name` among `attrs` set, each of
    /// which must be the one on top when it is popped.
    pub fn pop_attrs(&mut self, attrs: &Vec<Attribute>, name: &str, diags: &mut Vec<Diagnostic>)
        requires
            pops_match(old(self)@, attrs_limits(attrs@, name@)),
        ensures
            final(self)@ == old(self)@.take(old(self)@.len() - attrs_limits(attrs@, name@).len()),
            diags_view(final(diags)@) == diags_view(old(diags)@) + attrs_limit_diags(
                attrs@,
                name@,
            ),
    {
        let vals = parse_attrs(attrs, name, diags);
        let ghost s0 = self.stack@;
        let mut i: usize = 0;
        while i < vals.len()
            invariant
                i <= vals.len(),
                vals@ == attrs_limits(attrs@, name@),
                pops_match(s0, vals@),
                self.stack@ == s0.take(s0.len() - i),
            decreases vals.len() - i,
        {
            let top = self.stack.pop();
            assert(top == Some(vals@[i as int]));
            i = i + 1;
            assert(self.stack@ =~= s0.take(s0.len() - i));
        }
    }
}

/// Popping limits after pushing the same limits gives the stack back, where
/// the limits read the same forwards and backwards (as a single limit does).
pub proof fn lemma_pop_undoes_push(s: Seq<u64>, vals: Seq<u64>)
    requires
        vals.reverse() == vals,
    ensures
        pops_match(s + vals, vals),
        (s + vals).take((s + vals).len() - vals.len()) == s,
{
    assert forall|j: int| 0 <= j < vals.len() implies (s + vals)[(s + vals).len() - 1 - j]
        == #[trigger] vals[j] by {
        assert(vals.reverse()[j] == vals[vals.len() - 1 - j]);
    }
    assert((s + vals).take((s + vals).len() - vals.len()) =~= s);
}

/// The limits that the still-open pushes `frames` put on the stack, the
/// outermost first.
pub open spec fn open_limits(frames: Seq<Seq<u64>>) -> Seq<u64>
    decreases frames.len(),
{
    if frames.len() == 0 {
        Seq::empty()
    } else {
        open_limits(frames.drop_last()) + frames.last()
    }
}

/// The limit in force under the open pushes `frames` over the starting
/// limit `base`: the value of the innermost open push that pushed one, or
/// `base`.
pub open spec fn innermost_limit(base: u64, frames: Seq<Seq<u64>>) -> u64
    decreases frames.len(),
{
    if frames.len() == 0 {
        base
    } else if frames.last().len() > 0 {
        frames.last().last()
    } else {
        innermost_limit(base, frames.drop_last())
    }
}

/// Nested, balanced pushes and pops of limits, each pushing at most one
/// value: after `LimitStack::new(base)` and the pushes `frames` that are
/// still open, the stack holds `base` followed by their values, so it is
/// never empty and `limit()` is the value of the innermost open push that
/// pushed one, or `base`; pushing a further frame `f` and then popping the
/// same limits succeeds and gives that stack back.
pub proof fn lemma_nested_limits(base: u64, frames: Seq<Seq<u64>>, f: Seq<u64>)
    requires
        forall|i: int| 0 <= i < frames.len() ==> #[trigger] frames[i].len() <= 1,
        f.len() <= 1,
    ensures
        (seq![base] + open_limits(frames)).len() > 0,
        (seq![base] + open_limits(frames)).last() == innermost_limit(base, frames),
        (seq![base] + open_limits(frames)) + f == seq![base] + open_limits(frames.push(f)),
        pops_match(seq![base] + open_limits(frames.push(f)), f),
        ({
            let v = seq![base] + open_limits(frames.push(f));
            v.take(v.len() - f.len()) == seq![base] + open_limits(frames)
        }),
    decreases frames.len(),
{
    let s = seq![base] + open_limits(frames);
    if frames.len() > 0 {
        let fr = frames.drop_last();
        assert forall|i: int| 0 <= i < fr.len() implies #[trigger] fr[i].len() <= 1 by {
            assert(fr[i] == frames[i]);
        }
        lemma_nested_limits(base, fr, frames.last());
        assert(s =~= (seq![base] + open_limits(fr)) + frames.last());
        if frames.last().len() == 0 {
            assert(s =~= seq![base] + open_limits(fr));
        }
    }
    assert(frames.push(f).drop_last() =~= frames);
    assert(open_limits(frames.push(f)) == open_limits(frames) + f);
    assert(s + f =~= seq![base] + open_limits(frames.push(f)));
    assert(f.reverse() =~= f);
    lemma_pop_undoes_push(s, f);
}

/// Whether `a` is a normal attribute with the one-segment path `n`.
pub open spec fn has_name(a: Attribute, n: Seq<char>) -> bool {
    a.is_normal && a.segments@.len() == 1 && a.segments@[0].name@ == n
}

fn attr_has_name(a: &Attribute, n: &str) -> (r: bool)
    ensures
        r == has_name(*a, n@),
{
    a.is_normal && a.segments.len() == 1 && str_eq(a.segments[0].name.as_str(), n)
}

/// Whether `a` is a proc-macro attribute.
pub open spec fn is_proc_macro_attr(a: Attribute) -> bool {
    has_name(a, "proc_macro"@) || has_name(a, "proc_macro_attribute"@) || has_name(
        a,
        "proc_macro_derive"@,
    )
}

/// Return true if the attributes contain any of `proc_macro`,
/// `proc_macro_derive` or `proc_macro_attribute`, false otherwise
pub fn is_proc_macro(attrs: &Vec<Attribute>) -> (r: bool)
    ensures
        r == exists|i: int| 0 <= i < attrs@.len() && is_proc_macro_attr(#[trigger] attrs@[i]),
{
    let mut i: usize = 0;
    while i < attrs.len()
        invariant
            i <= attrs.len(),
            forall|j: int| 0 <= j < i ==> !is_proc_macro_attr(#[trigger] attrs@[j]),
        decreases attrs.len() - i,
    {
        let a = &attrs[i];
        if attr_has_name(a, "proc_macro") || attr_has_name(a, "proc_macro_attribute")
            || attr_has_name(a, "proc_macro_derive") {
            return true;
        }
        i = i + 1;
    }
    false
}

/// Whether `a` is `#[doc(.., hidden, ..)]`.
pub open spec fn is_doc_hidden_attr(a: Attribute) -> bool {
    has_name(a, "doc"@) && match a.meta_items {
        Some(items) => exists|k: int| 0 <= k < items@.len() && #[trigger] items@[k]@ == "hidden"@,
        None => false,
    }
}

/// Return true if the attributes contain `#[doc(hidden)]`
pub fn is_doc_hidden(attrs: &Vec<Attribute>) -> (r: bool)
    ensures
        r == exists|i: int| 0 <= i < attrs@.len() && is_doc_hidden_attr(#[trigger] attrs@[i]),
{
    let mut i: usize = 0;
    while i < attrs.len()
        invariant
            i <= attrs.len(),
            forall|j: int| 0 <= j < i ==> !is_doc_hidden_attr(#[trigger] attrs@[j]),
        decreases attrs.len() - i,
    {
        let a = &attrs[i];
        if attr_has_name(a, "doc") {
            match &a.meta_items {
                Some(items) => {
                    let mut k: usize = 0;
                    while k < items.len()
                        invariant
                            k <= items.len(),
                            i < attrs.len(),
                            has_name(attrs@[i as int], "doc"@),
                            attrs@[i as int].meta_items == Some(*items),
                            forall|j: int| 0 <= j < i ==> !is_doc_hidden_attr(#[trigger] attrs@[j]),
                            forall|m: int| 0 <= m < k ==> #[trigger] items@[m]@ != "hidden"@,
                        decreases items.len() - k,
                    {
                        if str_eq(items[k].as_str(), "hidden") {
                            assert(items@[k as int]@ == "hidden"@);
                            let ghost its = attrs@[i as int].meta_items->0;
                            assert(its@[k as int]@ == "hidden"@);
                            assert(exists|m: int| 0 <= m < its@.len() && #[trigger] its@[m]@ == "hidden"@);
                            assert(is_doc_hidden_attr(attrs@[i as int]));
                            return true;
                        }
                        k = k + 1;
                    }
                },
                None => {},
            }
        }
        i = i + 1;
    }
    false
}

} // verus!
