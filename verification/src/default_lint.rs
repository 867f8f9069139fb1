//! The lints about `Default::default()`: a call that does not name its type
//! (`default_trait_access`), and a binding initialised with a default value
//! whose fields are set right after (`field_reassign_with_default`).
//!
//! The facts that the compiler knows of expressions and types reach these
//! checks as plain values.
use vstd::prelude::*;
use crate::diag::{Applicability, DiagModel, Diagnostic, Span, Suggestion, diags_view, lemma_diags_push};
use crate::text::{concat3, join, join_strings, str_eq, strings_view};

verus! {

/// What the lint needs to know of a field of a struct.
pub struct FieldInfo {
    pub name: String,
    /// The field is visible from the module of the binding.
    pub accessible: bool,
    /// The type of the field is `Copy`.
    pub is_copy: bool,
}

/// What the lint needs to know of the struct type of a binding.
pub struct StructInfo {
    /// The struct is defined in the crate being checked.
    pub is_local: bool,
    /// The struct's field list is marked non-exhaustive.
    pub non_exhaustive: bool,
    /// The type has drop glue.
    pub has_drop: bool,
    pub fields: Vec<FieldInfo>,
    /// How the type prints.
    pub printed: String,
    /// The name of the struct item.
    pub item_name: String,
    /// How each of its generic arguments prints.
    pub generic_args: Vec<String>,
}

/// A `let` statement.
pub struct LetStmt {
    pub span: Span,
    /// The syntax context of the statement's span.
    pub ctxt: u32,
    /// The bound name, when the pattern is a plain binding.
    pub binding: Option<String>,
    /// The span of the initialiser, when it is a call of
    /// `Default::default()` that comes neither from a macro nor from a
    /// derive.
    pub default_init: Option<Span>,
    /// The type of the binding, when it is a struct.
    pub ty: Option<StructInfo>,
}

/// A statement `base.field = rhs;` where `base` is a path.
pub struct FieldAssign {
    pub span: Span,
    /// The syntax context of the statement's span.
    pub ctxt: u32,
    /// The last segment of the path.
    pub base: String,
    pub field: String,
    /// The source text of the right-hand side.
    pub rhs: String,
    /// The names that the right-hand side refers to.
    pub rhs_names: Vec<String>,
}

/// A statement of a block.
pub enum Stmt {
    Let(LetStmt),
    FieldAssign(FieldAssign),
    /// Any other statement.
    Other,
}

/// Whether a binding of type `t` may be built with the struct syntax: the
/// struct is local or its field list is exhaustive, every field is visible,
/// and it has no drop glue unless all its fields are `Copy`.
pub open spec fn eligible_struct(t: StructInfo) -> bool {
    &&& (t.is_local || !t.non_exhaustive)
    &&& forall|i: int| 0 <= i < t.fields@.len() ==> #[trigger] t.fields@[i].accessible
    &&& (!t.has_drop || forall|i: int| 0 <= i < t.fields@.len() ==> #[trigger] t.fields@[i].is_copy)
}

/// Whether `s` is a `let` of a plain name to `Default::default()` of an
/// eligible struct type.
pub open spec fn is_default_binding(s: Stmt) -> bool {
    match s {
        Stmt::Let(l) => l.binding is Some && l.default_init is Some && l.ty is Some
            && eligible_struct(l.ty.unwrap()),
        _ => false,
    }
}

/// Whether `name` occurs among `names`.
pub open spec fn mentions(names: Seq<String>, name: Seq<char>) -> bool {
    exists|k: int| 0 <= k < names.len() && #[trigger] names[k]@ == name
}

/// The assignments found so far after a default binding: the fields with
/// the text of their last value, in the order of their first assignment;
/// whether the lint is cancelled; the first assignment; and whether the scan
/// has stopped.
pub struct ScanState {
    pub fields: Seq<(Seq<char>, Seq<char>)>,
    pub cancel: bool,
    pub first: Option<Span>,
    pub stopped: bool,
}

/// `fs` with the value of the first entry named `f` replaced by `v`, or
/// with `(f, v)` appended if there is none.
pub open spec fn upsert(fs: Seq<(Seq<char>, Seq<char>)>, f: Seq<char>, v: Seq<char>) -> Seq<
    (Seq<char>, Seq<char>),
>
    decreases fs.len(),
{
    if fs.len() == 0 {
        seq![(f, v)]
    } else if fs[0].0 == f {
        fs.update(0, (f, v))
    } else {
        seq![fs[0]] + upsert(fs.drop_first(), f, v)
    }
}

/// One statement of the scan that follows a default binding of `name` made
/// in syntax context `ctxt`: an assignment to a field of `name` is recorded,
/// unless its value refers to `name` or it comes from another context, which
/// cancels the lint; any other statement ends the scan.
pub open spec fn scan_step(st: ScanState, s: Stmt, name: Seq<char>, ctxt: u32) -> ScanState {
    if st.stopped {
        st
    } else {
        match s {
            Stmt::FieldAssign(a) => if a.base@ == name {
                if mentions(a.rhs_names@, name) || a.ctxt != ctxt {
                    ScanState { fields: st.fields, cancel: true, first: st.first, stopped: true }
                } else {
                    ScanState {
                        fields: upsert(st.fields, a.field@, a.rhs@),
                        cancel: st.cancel,
                        first: if st.first is None {
                            Some(a.span)
                        } else {
                            st.first
                        },
                        stopped: false,
                    }
                }
            } else {
                ScanState { fields: st.fields, cancel: st.cancel, first: st.first, stopped: true }
            },
            _ => ScanState { fields: st.fields, cancel: st.cancel, first: st.first, stopped: true },
        }
    }
}

/// The scan of the statements `stmts[from..to]`.
pub open spec fn scan(stmts: Seq<Stmt>, from: int, to: int, name: Seq<char>, ctxt: u32) -> ScanState
    decreases to - from,
{
    if to <= from {
        ScanState { fields: Seq::empty(), cancel: false, first: None, stopped: false }
    } else {
        scan_step(scan(stmts, from, to - 1, name, ctxt), stmts[to - 1], name, ctxt)
    }
}

/// How the type of the binding is written in the suggestion: with its
/// generic arguments spelled out, if it has any.
pub open spec fn type_text(t: StructInfo) -> Seq<char> {
    if t.generic_args@.len() > 0 {
        t.item_name@ + "::<"@ + join(strings_view(t.generic_args@), ", "@) + ">"@
    } else {
        t.printed@
    }
}

/// The fields of the suggestion, `field: value`, separated by commas.
pub open spec fn field_list(fs: Seq<(Seq<char>, Seq<char>)>) -> Seq<char> {
    join(fs.map_values(|p: (Seq<char>, Seq<char>)| p.0 + ": "@ + p.1), ", "@)
}

/// Whether a field named `name` is among the assigned ones.
pub open spec fn assigned(fs: Seq<(Seq<char>, Seq<char>)>, name: Seq<char>) -> bool {
    exists|j: int| 0 <= j < fs.len() && #[trigger] fs[j].0 == name
}

/// Whether every field of `t` is among the assigned ones.
pub open spec fn assigns_all(t: StructInfo, fs: Seq<(Seq<char>, Seq<char>)>) -> bool {
    forall|i: int| 0 <= i < t.fields@.len() ==> #[trigger] assigned(fs, t.fields@[i].name@)
}

/// The initialiser that the lint suggests.
pub open spec fn suggestion_text(t: StructInfo, fs: Seq<(Seq<char>, Seq<char>)>) -> Seq<char> {
    let ty = type_text(t);
    let fl = field_list(fs);
    if !assigns_all(t, fs) {
        if fl.len() == 0 {
            ty + "::default()"@
        } else {
            ty + " { "@ + fl + ", ..Default::default() }"@
        }
    } else {
        ty + " { "@ + fl + " }"@
    }
}

/// The message of `field_reassign_with_default`.
pub open spec fn reassign_msg() -> Seq<char> {
    "field assignment outside of initializer for an instance created with Default::default()"@
}

/// The note of `field_reassign_with_default`, around the suggestion.
pub open spec fn reassign_note(sugg: Seq<char>) -> Seq<char> {
    "consider initializing the variable with `"@ + sugg
        + "` and removing relevant reassignments"@
}

/// The report on statement `i` of a block, with the span of the initialiser
/// it covers: a default binding whose fields the following statements assign
/// is reported at the first assignment, with a note at the binding that
/// suggests the initialiser.
pub open spec fn binding_lint(stmts: Seq<Stmt>, i: int) -> Option<(DiagModel, Span)> {
    let s = stmts[i];
    if is_default_binding(s) {
        let l = s->Let_0;
        let st = scan(stmts, i + 1, stmts.len() as int, l.binding.unwrap()@, l.ctxt);
        if st.fields.len() > 0 && !st.cancel {
            Some(
                (
                    DiagModel {
                        span: st.first.unwrap(),
                        msg: reassign_msg(),
                        note: Some(
                            (l.span, reassign_note(suggestion_text(l.ty.unwrap(), st.fields))),
                        ),
                        suggestion: None,
                    },
                    l.default_init.unwrap(),
                ),
            )
        } else {
            None
        }
    } else {
        None
    }
}

/// The reports on the statements before `upto`, and the spans of the
/// initialisers they cover.
pub open spec fn block_lints(stmts: Seq<Stmt>, upto: int) -> (Seq<DiagModel>, Seq<Span>)
    decreases upto,
{
    if upto <= 0 {
        (Seq::empty(), Seq::empty())
    } else {
        let prev = block_lints(stmts, upto - 1);
        match binding_lint(stmts, upto - 1) {
            Some((d, sp)) => (prev.0.push(d), prev.1.push(sp)),
            None => prev,
        }
    }
}

/// What the lints of a whole block report: nothing for a block of fewer
/// than two statements, since no statement follows the last one.
pub open spec fn check_block_spec(stmts: Seq<Stmt>) -> (Seq<DiagModel>, Seq<Span>) {
    if stmts.len() < 2 {
        (Seq::empty(), Seq::empty())
    } else {
        block_lints(stmts, stmts.len() - 1)
    }
}


/// The values of a list of pairs of strings.
pub open spec fn pairs_view(v: Seq<(String, String)>) -> Seq<(Seq<char>, Seq<char>)> {
    v.map_values(|p: (String, String)| (p.0@, p.1@))
}

/// `upsert` replaces the first entry of the name.
pub proof fn lemma_upsert_at(fs: Seq<(Seq<char>, Seq<char>)>, f: Seq<char>, v: Seq<char>, k: int)
    requires
        0 <= k < fs.len(),
        fs[k].0 == f,
        forall|j: int| 0 <= j < k ==> (#[trigger] fs[j]).0 != f,
    ensures
        upsert(fs, f, v) == fs.update(k, (f, v)),
    decreases fs.len(),
{
    if k > 0 {
        let t = fs.drop_first();
        assert forall|j: int| 0 <= j < k - 1 implies (#[trigger] t[j]).0 != f by {
            assert(t[j] == fs[j + 1]);
        }
        lemma_upsert_at(t, f, v, k - 1);
        assert(seq![fs[0]] + t.update(k - 1, (f, v)) =~= fs.update(k, (f, v)));
    }
}

/// `upsert` appends an entry of a new name.
pub proof fn lemma_upsert_new(fs: Seq<(Seq<char>, Seq<char>)>, f: Seq<char>, v: Seq<char>)
    requires
        forall|j: int| 0 <= j < fs.len() ==> (#[trigger] fs[j]).0 != f,
    ensures
        upsert(fs, f, v) == fs.push((f, v)),
    decreases fs.len(),
{
    if fs.len() > 0 {
        let t = fs.drop_first();
        assert forall|j: int| 0 <= j < t.len() implies (#[trigger] t[j]).0 != f by {
            assert(t[j] == fs[j + 1]);
        }
        lemma_upsert_new(t, f, v);
        assert(seq![fs[0]] + t.push((f, v)) =~= fs.push((f, v)));
    }
}

/// Once the scan has stopped, the statements after do not change it.
pub proof fn lemma_scan_stopped(stmts: Seq<Stmt>, from: int, j: int, to: int, name: Seq<char>, ctxt: u32)
    requires
        from <= j <= to,
        scan(stmts, from, j, name, ctxt).stopped,
    ensures
        scan(stmts, from, to, name, ctxt) == scan(stmts, from, j, name, ctxt),
    decreases to - j,
{
    if to > j {
        lemma_scan_stopped(stmts, from, j, to - 1, name, ctxt);
    }
}

/// A scan that recorded an assignment knows the first one.
pub proof fn lemma_scan_first(stmts: Seq<Stmt>, from: int, to: int, name: Seq<char>, ctxt: u32)
    ensures
        scan(stmts, from, to, name, ctxt).fields.len() > 0 ==> scan(
            stmts,
            from,
            to,
            name,
            ctxt,
        ).first is Some,
    decreases to - from,
{
    if to > from {
        lemma_scan_first(stmts, from, to - 1, name, ctxt);
    }
}

/// Whether `name` occurs among `names`.
pub fn mentions_name(names: &Vec<String>, name: &str) -> (r: bool)
    ensures
        r == mentions(names@, name@),
{
    let mut k: usize = 0;
    while k < names.len()
        invariant
            k <= names.len(),
            forall|j: int| 0 <= j < k ==> (#[trigger] names@[j])@ != name@,
        decreases names.len() - k,
    {
        if str_eq(names[k].as_str(), name) {
            return true;
        }
        k = k + 1;
    }
    false
}

/// Records the value `v` of field `f`: replaces the value of its first
/// entry, or appends a new entry.
pub fn upsert_field(fields: &mut Vec<(String, String)>, f: &str, v: &str)
    ensures
        pairs_view(final(fields)@) == upsert(pairs_view(old(fields)@), f@, v@),
{
    let ghost fs = pairs_view(fields@);
    let mut k: usize = 0;
    while k < fields.len()
        invariant
            fs == pairs_view(fields@),
            fields@ == old(fields)@,
            k <= fields.len(),
            forall|j: int| 0 <= j < k ==> (#[trigger] fs[j]).0 != f@,
        decreases fields.len() - k,
    {
        if str_eq(fields[k].0.as_str(), f) {
            proof {
                lemma_upsert_at(fs, f@, v@, k as int);
            }
            fields.set(k, (String::from_str(f), String::from_str(v)));
            assert(pairs_view(fields@) =~= fs.update(k as int, (f@, v@)));
            return;
        }
        k = k + 1;
    }
    proof {
        lemma_upsert_new(fs, f@, v@);
    }
    fields.push((String::from_str(f), String::from_str(v)));
    assert(pairs_view(fields@) =~= fs.push((f@, v@)));
}

/// Whether a binding of type `t` may be built with the struct syntax.
pub fn eligible(t: &StructInfo) -> (r: bool)
    ensures
        r == eligible_struct(*t),
{
    if !(t.is_local || !t.non_exhaustive) {
        return false;
    }
    let mut all_accessible = true;
    let mut all_copy = true;
    let mut i: usize = 0;
    while i < t.fields.len()
        invariant
            i <= t.fields.len(),
            all_accessible == forall|j: int| 0 <= j < i ==> #[trigger] t.fields@[j].accessible,
            all_copy == forall|j: int| 0 <= j < i ==> #[trigger] t.fields@[j].is_copy,
        decreases t.fields.len() - i,
    {
        all_accessible = all_accessible && t.fields[i].accessible;
        all_copy = all_copy && t.fields[i].is_copy;
        i = i + 1;
    }
    all_accessible && (!t.has_drop || all_copy)
}

/// How the type of the binding is written in the suggestion.
pub fn type_text_of(t: &StructInfo) -> (r: String)
    ensures
        r@ == type_text(*t),
{
    if t.generic_args.len() > 0 {
        let args = join_strings(&t.generic_args, ", ");
        let mut s = concat3(t.item_name.as_str(), "::<", args.as_str());
        s.append(">");
        s
    } else {
        String::from_str(t.printed.as_str())
    }
}

/// The fields of the suggestion.
pub fn field_list_of(fields: &Vec<(String, String)>) -> (r: String)
    ensures
        r@ == field_list(pairs_view(fields@)),
{
    let ghost fs = pairs_view(fields@);
    let mut parts: Vec<String> = Vec::new();
    let mut i: usize = 0;
    while i < fields.len()
        invariant
            fs == pairs_view(fields@),
            i <= fields.len(),
            strings_view(parts@) == fs.take(i as int).map_values(
                |p: (Seq<char>, Seq<char>)| p.0 + ": "@ + p.1,
            ),
        decreases fields.len() - i,
    {
        let part = concat3(fields[i].0.as_str(), ": ", fields[i].1.as_str());
        let ghost prev = parts@;
        parts.push(part);
        assert(strings_view(parts@) =~= strings_view(prev).push(part@));
        assert(fs.take(i + 1).map_values(|p: (Seq<char>, Seq<char>)| p.0 + ": "@ + p.1)
            =~= fs.take(i as int).map_values(|p: (Seq<char>, Seq<char>)| p.0 + ": "@ + p.1).push(
            fs[i as int].0 + ": "@ + fs[i as int].1,
        ));
        i = i + 1;
    }
    assert(fs.take(fields.len() as int) =~= fs);
    join_strings(&parts, ", ")
}

/// Whether every field of `t` is among the assigned ones.
pub fn assigns_every_field(t: &StructInfo, fields: &Vec<(String, String)>) -> (r: bool)
    ensures
        r == assigns_all(*t, pairs_view(fields@)),
{
    let ghost fs = pairs_view(fields@);
    let mut i: usize = 0;
    while i < t.fields.len()
        invariant
            fs == pairs_view(fields@),
            i <= t.fields.len(),
            forall|a: int| 0 <= a < i ==> #[trigger] assigned(fs, t.fields@[a].name@),
        decreases t.fields.len() - i,
    {
        let mut found = false;
        let mut j: usize = 0;
        while j < fields.len()
            invariant
                fs == pairs_view(fields@),
                i < t.fields.len(),
                j <= fields.len(),
                found ==> assigned(fs, t.fields@[i as int].name@),
                !found ==> forall|b: int|
                    0 <= b < j ==> (#[trigger] fs[b]).0 != t.fields@[i as int].name@,
            decreases fields.len() - j,
        {
            if !found && str_eq(fields[j].0.as_str(), t.fields[i].name.as_str()) {
                found = true;
                assert(fs[j as int].0 == t.fields@[i as int].name@);
            }
            j = j + 1;
        }
        if !found {
            assert(!assigned(fs, t.fields@[i as int].name@));
            return false;
        }
        i = i + 1;
    }
    true
}

/// The initialiser that the lint suggests.
pub fn suggestion_of(t: &StructInfo, fields: &Vec<(String, String)>) -> (r: String)
    ensures
        r@ == suggestion_text(*t, pairs_view(fields@)),
{
    let ty = type_text_of(t);
    let fl = field_list_of(fields);
    if !assigns_every_field(t, fields) {
        if fl.unicode_len() == 0 {
            let mut s = String::from_str(ty.as_str());
            s.append("::default()");
            s
        } else {
            let mut s = concat3(ty.as_str(), " { ", fl.as_str());
            s.append(", ..Default::default() }");
            s
        }
    } else {
        let mut s = concat3(ty.as_str(), " { ", fl.as_str());
        s.append(" }");
        s
    }
}


/// A call of `Default::default()` that `default_trait_access` looks at.
pub struct DefaultCall {
    pub span: Span,
    /// The call comes from a macro expansion.
    pub from_expansion: bool,
    /// The callee is a path that resolves to `Default::default`.
    pub calls_default_method: bool,
    /// Some parent of the call is automatically derived.
    pub parent_derived: bool,
    /// The call is the base of a struct update, `S { a: 1, ..call }`.
    pub update_syntax_base: bool,
    /// The path names its type, as in `<Foo as Default>::default()`.
    pub names_type: bool,
    /// How the path of the called type prints, when that type is an ADT.
    pub adt_path: Option<String>,
    /// The call comes from a procedural macro.
    pub from_proc_macro: bool,
}

/// The lint `default_trait_access` reports on `c`, given the spans that
/// `field_reassign_with_default` already covered.
pub open spec fn default_access_spec(linted: Seq<Span>, c: DefaultCall) -> Option<DiagModel> {
    if !c.from_expansion && !linted.contains(c.span) && c.calls_default_method && !c.parent_derived
        && !c.update_syntax_base && !c.names_type && c.adt_path is Some && !c.from_proc_macro {
        let rep = c.adt_path.unwrap()@ + "::default()"@;
        Some(
            DiagModel {
                span: c.span,
                msg: "calling `"@ + rep + "` is more clear than this expression"@,
                note: None,
                suggestion: Some((c.span, "try"@, rep, Applicability::Unspecified)),
            },
        )
    } else {
        None
    }
}

/// The state of the lints: the initialisers that `field_reassign_with_default`
/// has reported, which `default_trait_access` leaves alone.
pub struct Default {
    reassigned_linted: Vec<Span>,
}

impl Default {
    /// The initialisers reported so far.
    pub closed spec fn linted(&self) -> Seq<Span> {
        self.reassigned_linted@
    }

    /// No initialiser reported yet.
    pub fn new() -> (r: Default)
        ensures
            r.linted() == Seq::<Span>::empty(),
    {
        Default { reassigned_linted: Vec::new() }
    }

    fn is_linted(&self, span: Span) -> (r: bool)
        ensures
            r == self.linted().contains(span),
    {
        let mut k: usize = 0;
        while k < self.reassigned_linted.len()
            invariant
                k <= self.reassigned_linted.len(),
                forall|j: int| 0 <= j < k ==> self.reassigned_linted@[j] != span,
            decreases self.reassigned_linted.len() - k,
        {
            if self.reassigned_linted[k] == span {
                assert(self.linted()[k as int] == span);
                return true;
            }
            k = k + 1;
        }
        false
    }

    /// Checks a call of `Default::default()` that does not name its type,
    /// and suggests `T::default()`.
    pub fn check_expr(&self, c: &DefaultCall) -> (r: Option<Diagnostic>)
        ensures
            match r {
                Some(d) => default_access_spec(self.linted(), *c) == Some(d@),
                None => default_access_spec(self.linted(), *c) is None,
            },
    {
        if c.from_expansion || self.is_linted(c.span) || !c.calls_default_method || c.parent_derived
            || c.update_syntax_base || c.names_type || c.from_proc_macro {
            return None;
        }
        match &c.adt_path {
            None => None,
            Some(path) => {
                let mut rep = String::from_str(path.as_str());
                rep.append("::default()");
                let msg = concat3(
                    "calling `",
                    rep.as_str(),
                    "` is more clear than this expression",
                );
                Some(
                    Diagnostic {
                        span: c.span,
                        msg,
                        note: None,
                        suggestion: Some(
                            Suggestion {
                                span: c.span,
                                msg: String::from_str("try"),
                                replacement: rep,
                                applicability: Applicability::Unspecified,
                            },
                        ),
                    },
                )
            },
        }
    }

    /// Checks the statements of a block for default bindings whose fields
    /// are assigned right after, reports each one, and remembers its
    /// initialiser.
    pub fn check_block(&mut self, stmts: &Vec<Stmt>, diags: &mut Vec<Diagnostic>)
        ensures
            diags_view(final(diags)@) == diags_view(old(diags)@) + check_block_spec(stmts@).0,
            final(self).linted() == old(self).linted() + check_block_spec(stmts@).1,
    {
        let n = stmts.len();
        if n < 2 {
            assert(diags_view(diags@) =~= diags_view(old(diags)@) + Seq::<DiagModel>::empty());
            assert(self.linted() =~= old(self).linted() + Seq::<Span>::empty());
            return;
        }
        let mut i: usize = 0;
        assert(diags_view(diags@) =~= diags_view(old(diags)@) + block_lints(stmts@, 0).0);
        assert(self.linted() =~= old(self).linted() + block_lints(stmts@, 0).1);
        while i < n - 1
            invariant
                n == stmts.len(),
                n >= 2,
                i <= n - 1,
                diags_view(diags@) == diags_view(old(diags)@) + block_lints(stmts@, i as int).0,
                self.linted() == old(self).linted() + block_lints(stmts@, i as int).1,
            decreases n - 1 - i,
        {
            self.lint_binding(stmts, i, diags);
            proof {
                assert(diags_view(diags@) =~= diags_view(old(diags)@) + block_lints(
                    stmts@,
                    i + 1,
                ).0);
                assert(self.linted() =~= old(self).linted() + block_lints(stmts@, i + 1).1);
            }
            i = i + 1;
        }
    }

    /// The lint for statement `i`, if it is a default binding: appends its
    /// report and remembers its initialiser.
    fn lint_binding(&mut self, stmts: &Vec<Stmt>, i: usize, diags: &mut Vec<Diagnostic>)
        requires
            i < stmts.len(),
        ensures
            match binding_lint(stmts@, i as int) {
                Some((d, sp)) => diags_view(final(diags)@) == diags_view(old(diags)@).push(d)
                    && final(self).linted() == old(self).linted().push(sp),
                None => final(diags)@ == old(diags)@ && final(self).linted() == old(self).linted(),
            },
    {
        let n = stmts.len();
        let l = match &stmts[i] {
            Stmt::Let(l) => l,
            _ => {
                return;
            },
        };
        let name = match &l.binding {
            Some(b) => b,
            None => {
                return;
            },
        };
        let init_span = match l.default_init {
            Some(sp) => sp,
            None => {
                return;
            },
        };
        let t = match &l.ty {
            Some(t) => t,
            None => {
                return;
            },
        };
        if !eligible(t) {
            return;
        }
        let mut fields: Vec<(String, String)> = Vec::new();
        let mut cancel = false;
        let mut first: Option<Span> = None;
        let mut stopped = false;
        let mut j: usize = i + 1;
        assert(pairs_view(fields@) =~= Seq::<(Seq<char>, Seq<char>)>::empty());
        while j < n && !stopped
            invariant
                n == stmts.len(),
                i + 1 <= j <= n,
                (ScanState { fields: pairs_view(fields@), cancel, first, stopped }) == scan(
                    stmts@,
                    i + 1,
                    j as int,
                    name@,
                    l.ctxt,
                ),
            decreases n - j,
        {
            match &stmts[j] {
                Stmt::FieldAssign(a) => {
                    if str_eq(a.base.as_str(), name.as_str()) {
                        if mentions_name(&a.rhs_names, name.as_str()) || a.ctxt != l.ctxt {
                            cancel = true;
                            stopped = true;
                        } else {
                            upsert_field(&mut fields, a.field.as_str(), a.rhs.as_str());
                            if first.is_none() {
                                first = Some(a.span);
                            }
                        }
                    } else {
                        stopped = true;
                    }
                },
                _ => {
                    stopped = true;
                },
            }
            j = j + 1;
        }
        proof {
            if stopped {
                lemma_scan_stopped(stmts@, i + 1, j as int, n as int, name@, l.ctxt);
            }
            lemma_scan_first(stmts@, i + 1, n as int, name@, l.ctxt);
        }
        if fields.len() > 0 && !cancel {
            let sugg = suggestion_of(t, &fields);
            let note = concat3(
                "consider initializing the variable with `",
                sugg.as_str(),
                "` and removing relevant reassignments",
            );
            let d = Diagnostic {
                span: first.unwrap(),
                msg: String::from_str(
                    "field assignment outside of initializer for an instance created with Default::default()",
                ),
                note: Some((l.span, note)),
                suggestion: None,
            };
            proof {
                lemma_diags_push(diags@, d);
            }
            diags.push(d);
            self.reassigned_linted.push(init_span);
        }
    }
}


/// An initialiser that `field_reassign_with_default` reported in a block is
/// not reported again by `default_trait_access`, whatever was reported
/// before.
pub proof fn lemma_reported_initialiser_skipped(linted: Seq<Span>, stmts: Seq<Stmt>, c: DefaultCall)
    requires
        check_block_spec(stmts).1.contains(c.span),
    ensures
        default_access_spec(linted + check_block_spec(stmts).1, c) is None,
{
    let added = check_block_spec(stmts).1;
    let k = choose|k: int| 0 <= k < added.len() && added[k] == c.span;
    assert((linted + added)[linted.len() + k] == c.span);
}

} // verus!
