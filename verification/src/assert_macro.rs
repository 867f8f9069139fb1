//! The expansion of `assert!(cond, msg..)`: reading its arguments, the
//! mistakes that are reported on the way, and the `if !cond { panic }` that
//! it becomes.
//!
//! The macro's tokens reach the reader as the units that the language
//! parser would hand out; an expression carries its printed form.
use vstd::prelude::*;
use crate::diag::Span;

verus! {

/// A unit of the macro's arguments.
pub enum AssertToken {
    /// An expression, with its span and how it prints.
    Expr { span: Span, printed: String },
    Semi { span: Span },
    Comma { span: Span },
    /// A string literal.
    Str { span: Span, text: String },
    /// Any other token.
    Other { span: Span, text: String },
}

impl AssertToken {
    /// The span of the token.
    pub open spec fn span_of(self) -> Span {
        match self {
            AssertToken::Expr { span, .. } => span,
            AssertToken::Semi { span } => span,
            AssertToken::Comma { span } => span,
            AssertToken::Str { span, .. } => span,
            AssertToken::Other { span, .. } => span,
        }
    }

    /// The span of the token.
    pub fn span(&self) -> (r: Span)
        ensures
            r == self.span_of(),
    {
        match self {
            AssertToken::Expr { span, .. } => *span,
            AssertToken::Semi { span } => *span,
            AssertToken::Comma { span } => *span,
            AssertToken::Str { span, .. } => *span,
            AssertToken::Other { span, .. } => *span,
        }
    }
}

/// Why the arguments of `assert!` were refused.
#[derive(Clone, Copy, PartialEq, Eq, Structural)]
pub enum AssertError {
    /// There are no arguments: `assert!` requires a boolean expression.
    RequiresBoolean { span: Span },
    /// The arguments do not start with an expression.
    ExpectedExpression { span: Span },
    /// A token follows where none should.
    Unexpected { span: Span },
}

/// A mistake that is reported while the arguments are still accepted.
#[derive(Clone, Copy, PartialEq, Eq, Structural)]
pub enum AssertNote {
    /// A semicolon follows the condition: it is skipped.
    SemicolonAfterCondition { span: Span, token: Span },
    /// A string literal follows the condition without a comma; `comma` is
    /// where the comma belongs.
    MissingComma { span: Span, comma: Span },
}

/// The arguments of `assert!`: the condition, and the tokens of the custom
/// message, if there is one.
pub struct Assert {
    pub cond: AssertToken,
    pub custom_message: Option<Vec<AssertToken>>,
}

/// The place where the custom message starts, given that the condition is
/// the first token: past a semicolon, and past a comma that introduces it.
/// `None` when a token other than a string literal or a comma follows.
pub open spec fn message_start(toks: Seq<AssertToken>) -> Option<int> {
    let k = if toks.len() > 1 && toks[1] is Semi {
        2int
    } else {
        1int
    };
    if k >= toks.len() {
        Some(k)
    } else if toks[k] is Str {
        Some(k)
    } else if toks[k] is Comma {
        Some(k + 1)
    } else {
        None
    }
}

/// The error that refuses the arguments `toks` of `assert!` at span `sp`,
/// if any: no arguments at all; a first token that is no expression; or,
/// after the condition (and a semicolon), a token that is neither a string
/// literal nor a comma.
pub open spec fn assert_error(sp: Span, toks: Seq<AssertToken>) -> Option<AssertError> {
    if toks.len() == 0 {
        Some(AssertError::RequiresBoolean { span: sp })
    } else if !(toks[0] is Expr) {
        Some(AssertError::ExpectedExpression { span: toks[0].span_of() })
    } else if message_start(toks) is None {
        Some(
            AssertError::Unexpected {
                span: toks[if toks.len() > 1 && toks[1] is Semi {
                    2int
                } else {
                    1int
                }].span_of(),
            },
        )
    } else {
        None
    }
}

/// The mistakes reported while reading the arguments `toks`, at the macro's
/// span `sp`.
pub open spec fn notes_spec(sp: Span, toks: Seq<AssertToken>) -> Seq<AssertNote> {
    if toks.len() == 0 || !(toks[0] is Expr) {
        Seq::empty()
    } else {
        let semi = toks.len() > 1 && toks[1] is Semi;
        let k = if semi {
            2int
        } else {
            1int
        };
        let first = if semi {
            seq![AssertNote::SemicolonAfterCondition { span: sp, token: toks[1].span_of() }]
        } else {
            Seq::empty()
        };
        if k < toks.len() && toks[k] is Str {
            first.push(
                AssertNote::MissingComma {
                    span: toks[k].span_of(),
                    comma: Span { lo: toks[k - 1].span_of().hi, hi: toks[k - 1].span_of().hi },
                },
            )
        } else {
            first
        }
    }
}

/// Reads the arguments of `assert!` at span `sp`: the condition and the
/// custom message (the tokens after it, if there are any), or the error;
/// with the mistakes reported on the way.
pub fn parse_assert(sp: Span, toks: Vec<AssertToken>) -> (r: (Result<Assert, AssertError>, Vec<AssertNote>))
    ensures
        r.1@ == notes_spec(sp, toks@),
        match r.0 {
            Err(e) => assert_error(sp, toks@) == Some(e),
            Ok(_) => assert_error(sp, toks@) is None,
        },
        match r.0 {
            Err(AssertError::RequiresBoolean { span }) => toks@.len() == 0 && span == sp,
            Err(AssertError::ExpectedExpression { span }) => toks@.len() > 0 && !(toks@[0] is Expr)
                && span == toks@[0].span_of(),
            Err(AssertError::Unexpected { span }) => toks@.len() > 0 && toks@[0] is Expr
                && message_start(toks@) is None && span == toks@[if toks@.len() > 1
                && toks@[1] is Semi {
                2int
            } else {
                1int
            }].span_of(),
            Ok(a) => {
                &&& toks@.len() > 0
                &&& toks@[0] is Expr
                &&& a.cond == toks@[0]
                &&& message_start(toks@) matches Some(k) && match a.custom_message {
                    Some(m) => k < toks@.len() && m@ == toks@.skip(k),
                    None => k >= toks@.len(),
                }
            },
        },
{
    let mut notes: Vec<AssertNote> = Vec::new();
    let n = toks.len();
    if n == 0 {
        return (Err(AssertError::RequiresBoolean { span: sp }), notes);
    }
    let is_expr = match &toks[0] {
        AssertToken::Expr { .. } => true,
        _ => false,
    };
    if !is_expr {
        let span = toks[0].span();
        return (Err(AssertError::ExpectedExpression { span }), notes);
    }
    let mut k: usize = 1;
    if n > 1 {
        match &toks[1] {
            AssertToken::Semi { span } => {
                notes.push(AssertNote::SemicolonAfterCondition { span: sp, token: *span });
                k = 2;
            },
            _ => {},
        }
    }
    let mut start: usize = k;
    if k < n {
        match &toks[k] {
            AssertToken::Str { span, .. } => {
                let prev = toks[k - 1].span();
                notes.push(AssertNote::MissingComma { span: *span, comma: Span { lo: prev.hi, hi: prev.hi } });
            },
            AssertToken::Comma { .. } => {
                start = k + 1;
            },
            _ => {
                let span = toks[k].span();
                return (Err(AssertError::Unexpected { span }), notes);
            },
        }
    }
    let mut all = toks;
    let rest = all.split_off(start);
    let cond = all.remove(0);
    assert(rest@ =~= toks@.skip(start as int));
    let custom_message = if rest.len() > 0 {
        Some(rest)
    } else {
        None
    };
    (Ok(Assert { cond, custom_message }), notes)
}


/// What `str::escape_debug` makes of `s`: `s` with quotes, backslashes and
/// control characters escaped as in a Rust string literal.
pub uninterp spec fn escape_debug_text(s: Seq<char>) -> Seq<char>;

/// `s.escape_debug().to_string()` (std's `str::escape_debug`); its result is
/// named by `escape_debug_text`, a function of the characters of `s` alone.
#[verifier::external_body]
fn escape_debug(s: &str) -> (r: String)
    ensures
        r@ == escape_debug_text(s@),
{
    s.escape_debug().to_string()
}

/// The panic macro that a failed assertion calls.
#[derive(Clone, Copy, PartialEq, Eq, Structural)]
pub enum PanicPath {
    /// `$crate::panic::panic_2021!`, on edition 2021.
    Panic2021,
    /// `panic!`, unqualified, before edition 2021.
    Panic,
}

/// What `assert!` expands to.
pub enum Expansion {
    /// The arguments were refused: a placeholder expression.
    Dummy,
    /// `if !cond { path!(message) }`, with the user's message.
    PanicWithMessage { cond: AssertToken, path: PanicPath, message: Vec<AssertToken> },
    /// The expression that captures the values of the condition, when the
    /// `generic_assert` feature is on.
    Captured { cond: AssertToken, path: PanicPath },
    /// `if !cond { $crate::panicking::panic(text) }`.
    PanicWithText { cond: AssertToken, text: String },
}

/// The text that a failed assertion without message panics with.
pub open spec fn failure_text(printed: Seq<char>) -> Seq<char> {
    "assertion failed: "@ + escape_debug_text(printed)
}

/// The text that a failed assertion without message panics with, given how
/// its condition prints.
pub fn failure_message(printed: &str) -> (r: String)
    ensures
        r@ == failure_text(printed@),
{
    let escaped = escape_debug(printed);
    assertion_failed_text(escaped.as_str())
}

/// The text of a failed assertion, given the escaped form of its
/// condition.
pub fn assertion_failed_text(escaped: &str) -> (r: String)
    ensures
        r@ == "assertion failed: "@ + escaped@,
{
    let mut s = String::from_str("assertion failed: ");
    s.append(escaped);
    s
}

/// Expands `assert!` with the arguments `toks` at span `sp`, on edition
/// 2021 or before, with or without the `generic_assert` feature: the
/// expansion, the mistakes reported while reading the arguments, and the
/// error that refused them.
pub fn expand_assert(sp: Span, toks: Vec<AssertToken>, edition_2021: bool, generic_assert: bool) -> (r: (
    Expansion,
    Vec<AssertNote>,
    Option<AssertError>,
))
    ensures
        r.1@ == notes_spec(sp, toks@),
        r.2 == assert_error(sp, toks@),
        r.2 is Some <==> r.0 is Dummy,
        match r.0 {
            Expansion::Dummy => true,
            Expansion::PanicWithMessage { cond, path, message } => {
                &&& cond == toks@[0]
                &&& path == (if edition_2021 {
                    PanicPath::Panic2021
                } else {
                    PanicPath::Panic
                })
                &&& message_start(toks@) matches Some(k) && k < toks@.len() && message@ == toks@.skip(k)
            },
            Expansion::Captured { cond, path } => {
                &&& generic_assert
                &&& cond == toks@[0]
                &&& path == (if edition_2021 {
                    PanicPath::Panic2021
                } else {
                    PanicPath::Panic
                })
                &&& message_start(toks@) matches Some(k) && k >= toks@.len()
            },
            Expansion::PanicWithText { cond, text } => {
                &&& !generic_assert
                &&& cond == toks@[0]
                &&& message_start(toks@) matches Some(k) && k >= toks@.len()
                &&& cond matches AssertToken::Expr { printed, .. } && text@ == failure_text(printed@)
            },
        },
{
    let (parsed, notes) = parse_assert(sp, toks);
    let a = match parsed {
        Ok(a) => a,
        Err(e) => {
            return (Expansion::Dummy, notes, Some(e));
        },
    };
    let path = if edition_2021 {
        PanicPath::Panic2021
    } else {
        PanicPath::Panic
    };
    match a.custom_message {
        Some(message) => (Expansion::PanicWithMessage { cond: a.cond, path, message }, notes, None),
        None => {
            if generic_assert {
                (Expansion::Captured { cond: a.cond, path }, notes, None)
            } else {
                let text = match &a.cond {
                    AssertToken::Expr { printed, .. } => failure_message(printed.as_str()),
                    _ => String::new(),
                };
                (Expansion::PanicWithText { cond: a.cond, text }, notes, None)
            }
        },
    }
}

} // verus!
