//! Lints on single expressions: parentheses around range literals,
//! `mem::swap` of dereferenced raw pointers, `set_readonly(false)`,
//! `option_env!(..).unwrap()`, and `from_str_radix(s, 10)`.
//!
//! What the compiler knows of the expressions (their kinds, types, spans and
//! source text) reaches these checks as plain values.
use vstd::prelude::*;
use crate::diag::{Applicability, DiagModel, Diagnostic, Span, Suggestion, diags_view};
use crate::text::{concat3, ends_with_char, starts_with_char, str_eq};

verus! {

/// Whether the source text is enclosed in parentheses.
pub fn snippet_enclosed_in_parenthesis(snippet: &str) -> (r: bool)
    ensures
        r == (snippet@.len() > 0 && snippet@[0] == '(' && snippet@[snippet@.len() - 1] == ')'),
{
    starts_with_char(snippet, '(') && ends_with_char(snippet, ')')
}

/// A bound of a range expression.
pub struct RangeBound {
    pub span: Span,
    /// The literal the bound is, if it is one: its span, its source text,
    /// and whether it is a float without suffix.
    pub lit: Option<(Span, String, bool)>,
    /// The source text of the bound.
    pub snippet: String,
    /// How far the literal's source text can be trusted: the applicability
    /// that taking it leaves, starting from machine-applicable.
    pub lit_app: Applicability,
}

/// The report on a range bound that is a literal in parentheses: remove
/// them.
pub open spec fn parens_spec(e: RangeBound, is_start: bool) -> Option<DiagModel> {
    match e.lit {
        None => None,
        Some((lit_span, lit_text, unsuffixed_float)) => if is_start && unsuffixed_float {
            None
        } else if (lit_span.hi - lit_span.lo) != (e.span.hi - e.span.lo) && e.snippet@.len() > 0
            && e.snippet@[0] == '(' && e.snippet@.last() == ')' {
            Some(
                DiagModel {
                    span: e.span,
                    msg: "needless parenthesis on range literals can be removed"@,
                    note: None,
                    suggestion: Some((e.span, "try"@, lit_text@, e.lit_app)),
                },
            )
        } else {
            None
        },
    }
}

/// Checks one bound of a range.
pub fn check_for_parens(e: &RangeBound, is_start: bool) -> (r: Option<Diagnostic>)
    ensures
        match r {
            Some(d) => parens_spec(*e, is_start) == Some(d@),
            None => parens_spec(*e, is_start) is None,
        },
{
    match &e.lit {
        None => None,
        Some((lit_span, lit_text, unsuffixed_float)) => {
            if is_start && *unsuffixed_float {
                return None;
            }
            let lit_len: i64 = lit_span.hi as i64 - lit_span.lo as i64;
            let expr_len: i64 = e.span.hi as i64 - e.span.lo as i64;
            if lit_len != expr_len && snippet_enclosed_in_parenthesis(e.snippet.as_str()) {
                Some(
                    Diagnostic {
                        span: e.span,
                        msg: String::from_str("needless parenthesis on range literals can be removed"),
                        note: None,
                        suggestion: Some(
                            Suggestion {
                                span: e.span,
                                msg: String::from_str("try"),
                                replacement: String::from_str(lit_text.as_str()),
                                applicability: e.lit_app,
                            },
                        ),
                    },
                )
            } else {
                None
            }
        },
    }
}

/// The report on a bound, if it has one, as a list.
pub open spec fn bound_reports(b: Option<RangeBound>, is_start: bool) -> Seq<DiagModel> {
    match b {
        Some(x) => match parens_spec(x, is_start) {
            Some(d) => seq![d],
            None => Seq::empty(),
        },
        None => Seq::empty(),
    }
}

/// Checks the bounds of a range expression.
pub fn check_range(start: &Option<RangeBound>, end: &Option<RangeBound>) -> (r: Vec<Diagnostic>)
    ensures
        diags_view(r@) == bound_reports(*start, true) + bound_reports(*end, false),
{
    let mut out: Vec<Diagnostic> = Vec::new();
    match start {
        Some(s) => match check_for_parens(s, true) {
            Some(d) => out.push(d),
            None => {},
        },
        None => {},
    }
    let ghost first = out@;
    assert(diags_view(first) =~= bound_reports(*start, true));
    match end {
        Some(e) => match check_for_parens(e, false) {
            Some(d) => {
                out.push(d);
                assert(diags_view(out@) =~= diags_view(first).push(d@));
            },
            None => {},
        },
        None => {},
    }
    assert(diags_view(out@) =~= bound_reports(*start, true) + bound_reports(*end, false));
    out
}

/// An argument of `mem::swap`.
pub struct SwapArg {
    /// The source text of the argument.
    pub text: String,
    /// Whether it is `&mut *p` for a raw pointer `p`; if so, the source text
    /// of `p` when the borrow or `p` come from the call's context.
    pub ptr_deref: Option<Option<String>>,
}

/// The report on `mem::swap(a, b)` where an argument is `&mut *p` of a raw
/// pointer: use `ptr::swap`, when the pointers' text is known. `app` is the
/// applicability that taking the two texts leaves, starting from
/// machine-applicable.
pub open spec fn swap_spec(span: Span, a: SwapArg, b: SwapArg, app: Applicability) -> Option<DiagModel> {
    if a.ptr_deref is None && b.ptr_deref is None {
        None
    } else {
        let ta = match a.ptr_deref {
            Some(Some(t)) => t@,
            _ => a.text@,
        };
        let tb = match b.ptr_deref {
            Some(Some(t)) => t@,
            _ => b.text@,
        };
        Some(
            DiagModel {
                span,
                msg: "call to `core::mem::swap` with a parameter derived from a raw pointer"@,
                note: None,
                suggestion: if a.ptr_deref == Some(None::<String>) || b.ptr_deref == Some(
                    None::<String>,
                ) {
                    None
                } else {
                    Some((span, "use ptr::swap"@, "core::ptr::swap("@ + ta + ", "@ + tb + ")"@, app))
                },
            },
        )
    }
}

/// Checks a call `mem::swap(a, b)` at `span`; `app` is the applicability
/// that taking the arguments' source text leaves, starting from
/// machine-applicable.
pub fn check_swap(span: Span, a: &SwapArg, b: &SwapArg, app: Applicability) -> (r: Option<Diagnostic>)
    ensures
        match r {
            Some(d) => swap_spec(span, *a, *b, app) == Some(d@),
            None => swap_spec(span, *a, *b, app) is None,
        },
{
    if a.ptr_deref.is_none() && b.ptr_deref.is_none() {
        return None;
    }
    let missing = match (&a.ptr_deref, &b.ptr_deref) {
        (Some(None), _) => true,
        (_, Some(None)) => true,
        _ => false,
    };
    let suggestion = if missing {
        None
    } else {
        let ta = match &a.ptr_deref {
            Some(Some(t)) => t.as_str(),
            _ => a.text.as_str(),
        };
        let tb = match &b.ptr_deref {
            Some(Some(t)) => t.as_str(),
            _ => b.text.as_str(),
        };
        let mut s = concat3("core::ptr::swap(", ta, ", ");
        s.append(tb);
        s.append(")");
        Some(Suggestion { span, msg: String::from_str("use ptr::swap"), replacement: s, applicability: app })
    };
    Some(
        Diagnostic {
            span,
            msg: String::from_str("call to `core::mem::swap` with a parameter derived from a raw pointer"),
            note: None,
            suggestion,
        },
    )
}

/// A report with a note and a help message.
pub struct NoteHelpLint {
    pub span: Span,
    pub msg: String,
    pub note: Option<String>,
    pub help: String,
}

/// A method call, as the checks below read it.
pub struct MethodCallFacts {
    pub span: Span,
    pub method: String,
    /// The receiver is a `std::fs::Permissions`.
    pub receiver_is_permissions: bool,
    /// The only argument is the literal `false`.
    pub single_false_arg: bool,
    /// The receiver is a call whose callee comes straight from
    /// `option_env!`.
    pub receiver_from_option_env: bool,
}

/// Checks `perms.set_readonly(false)`, which makes a file writable by all
/// on Unix.
pub fn check_set_readonly(c: &MethodCallFacts) -> (r: Option<NoteHelpLint>)
    ensures
        r is Some <==> (c.receiver_is_permissions && c.method@ == "set_readonly"@ && c.single_false_arg),
        r matches Some(l) ==> l.span == c.span && l.msg@ == "call to `set_readonly` with argument `false`"@
            && (l.note matches Some(n) && n@ == "on Unix platforms this results in the file being world writable"@)
            && l.help@ == "you can set the desired permissions using `PermissionsExt`. For more information, see\nhttps://doc.crablang.org/std/os/unix/fs/trait.PermissionsExt.html"@,
{
    if c.receiver_is_permissions && str_eq(c.method.as_str(), "set_readonly") && c.single_false_arg {
        Some(
            NoteHelpLint {
                span: c.span,
                msg: String::from_str("call to `set_readonly` with argument `false`"),
                note: Some(String::from_str(
                    "on Unix platforms this results in the file being world writable",
                )),
                help: String::from_str(
                    "you can set the desired permissions using `PermissionsExt`. For more information, see\nhttps://doc.crablang.org/std/os/unix/fs/trait.PermissionsExt.html",
                ),
            },
        )
    } else {
        None
    }
}

/// Checks `option_env!(..).unwrap()` and `.expect(..)`, which panic when
/// the variable was missing at compile time.
pub fn check_option_env_unwrap(c: &MethodCallFacts) -> (r: Option<NoteHelpLint>)
    ensures
        r is Some <==> ((c.method@ == "expect"@ || c.method@ == "unwrap"@) && c.receiver_from_option_env),
        r matches Some(l) ==> l.span == c.span
            && l.msg@ == "this will panic at run-time if the environment variable doesn't exist at compile-time"@
            && l.note is None && l.help@ == "consider using the `env!` macro instead"@,
{
    if (str_eq(c.method.as_str(), "expect") || str_eq(c.method.as_str(), "unwrap"))
        && c.receiver_from_option_env {
        Some(
            NoteHelpLint {
                span: c.span,
                msg: String::from_str(
                    "this will panic at run-time if the environment variable doesn't exist at compile-time",
                ),
                note: None,
                help: String::from_str("consider using the `env!` macro instead"),
            },
        )
    } else {
        None
    }
}

/// How an expression is written in a suggestion.
pub struct Operand {
    pub text: String,
    /// It needs parentheses before a method call.
    pub needs_parens: bool,
}

/// A call `T::name(src, radix)` where `T` is a type.
pub struct RadixCall {
    pub span: Span,
    /// The name of `T` when it is a primitive integer type.
    pub int_type: Option<String>,
    pub name: String,
    /// The radix is the integer literal 10.
    pub radix_is_ten: bool,
    pub src: Operand,
    /// When `src` is `&e` with `e` a `String` or a `str`: `e`.
    pub borrowed_string: Option<Operand>,
}

/// The operand in a suggestion: in parentheses if it needs them.
pub open spec fn maybe_par(o: Operand) -> Seq<char> {
    if o.needs_parens {
        "("@ + o.text@ + ")"@
    } else {
        o.text@
    }
}

/// The report on `from_str_radix(s, 10)`: use `s.parse::<T>()`.
pub open spec fn radix_spec(c: RadixCall) -> Option<DiagModel> {
    if c.int_type matches Some(t) && c.name@ == "from_str_radix"@ && c.radix_is_ten {
        let e = match c.borrowed_string {
            Some(inner) => inner,
            None => c.src,
        };
        Some(
            DiagModel {
                span: c.span,
                msg: "this call to `from_str_radix` can be replaced with a call to `str::parse`"@,
                note: None,
                suggestion: Some(
                    (
                        c.span,
                        "try"@,
                        maybe_par(e) + ".parse::<"@ + c.int_type.unwrap()@ + ">()"@,
                        Applicability::MaybeIncorrect,
                    ),
                ),
            },
        )
    } else {
        None
    }
}

/// Checks a call of `from_str_radix` with radix 10.
pub fn check_from_str_radix(c: &RadixCall) -> (r: Option<Diagnostic>)
    ensures
        match r {
            Some(d) => radix_spec(*c) == Some(d@),
            None => radix_spec(*c) is None,
        },
{
    let t = match &c.int_type {
        Some(t) => t,
        None => {
            return None;
        },
    };
    if !(str_eq(c.name.as_str(), "from_str_radix") && c.radix_is_ten) {
        return None;
    }
    let e = match &c.borrowed_string {
        Some(inner) => inner,
        None => &c.src,
    };
    let mut s = if e.needs_parens {
        concat3("(", e.text.as_str(), ")")
    } else {
        String::from_str(e.text.as_str())
    };
    s.append(".parse::<");
    s.append(t.as_str());
    s.append(">()");
    Some(
        Diagnostic {
            span: c.span,
            msg: String::from_str(
                "this call to `from_str_radix` can be replaced with a call to `str::parse`",
            ),
            note: None,
            suggestion: Some(
                Suggestion {
                    span: c.span,
                    msg: String::from_str("try"),
                    replacement: s,
                    applicability: Applicability::MaybeIncorrect,
                },
            ),
        },
    )
}

} // verus!
