//! The lint `match_str_case_mismatch`: a `match` on a string that was
//! converted to lower (or upper) case, with an arm whose literal is not in
//! that case and so can never match.
//!
//! The scrutinee reaches the check as the list of its sub-expressions in
//! pre-order, each with the size of its subtree; the arms as their string
//! literals.
use vstd::prelude::*;
use crate::diag::{Applicability, DiagModel, Diagnostic, Span, Suggestion};
use crate::text::{concat3, str_eq};

verus! {

/// A conversion of the case of a string.
#[derive(Clone, Copy, PartialEq, Eq, Structural)]
pub enum CaseMethod {
    LowerCase,
    AsciiLowerCase,
    UpperCase,
    AsciiUppercase,
}

/// The conversion that a method of that name performs.
pub open spec fn case_method_of(name: Seq<char>) -> Option<CaseMethod> {
    if name == "to_lowercase"@ {
        Some(CaseMethod::LowerCase)
    } else if name == "to_ascii_lowercase"@ {
        Some(CaseMethod::AsciiLowerCase)
    } else if name == "to_uppercase"@ {
        Some(CaseMethod::UpperCase)
    } else if name == "to_ascii_uppercase"@ {
        Some(CaseMethod::AsciiUppercase)
    } else {
        None
    }
}

/// The conversion that a method of that name performs.
pub fn get_case_method(name: &str) -> (r: Option<CaseMethod>)
    ensures
        r == case_method_of(name@),
{
    if str_eq(name, "to_lowercase") {
        Some(CaseMethod::LowerCase)
    } else if str_eq(name, "to_ascii_lowercase") {
        Some(CaseMethod::AsciiLowerCase)
    } else if str_eq(name, "to_uppercase") {
        Some(CaseMethod::UpperCase)
    } else if str_eq(name, "to_ascii_uppercase") {
        Some(CaseMethod::AsciiUppercase)
    } else {
        None
    }
}

/// A sub-expression of the scrutinee.
pub enum ExprNode {
    /// `receiver.name(args..)`; `receiver_stringish`: the receiver's type,
    /// references peeled, is `String` or `str`.
    MethodCall { name: String, no_args: bool, receiver_stringish: bool },
    /// Anything else.
    Other,
}

/// A sub-expression, with the number of nodes of its subtree (itself
/// included).
pub struct Node {
    pub expr: ExprNode,
    pub size: usize,
}

/// The conversion that a node performs on a string, if it is one.
pub open spec fn node_case(n: Node) -> Option<CaseMethod> {
    match n.expr {
        ExprNode::MethodCall { name, no_args, receiver_stringish } => if no_args && receiver_stringish {
            case_method_of(name@)
        } else {
            None
        },
        ExprNode::Other => None,
    }
}

/// The conversion that the walk of `nodes[i..]` settles on, starting from
/// `cur`: the last conversion met, where the walk does not enter the
/// subtree of a conversion.
pub open spec fn walk_case(nodes: Seq<Node>, i: int, cur: Option<CaseMethod>) -> Option<CaseMethod>
    decreases nodes.len() - i,
{
    if i < 0 || i >= nodes.len() {
        cur
    } else {
        match node_case(nodes[i]) {
            Some(m) => {
                let next = i + if nodes[i].size > 1 {
                    nodes[i].size as int
                } else {
                    1
                };
                if next >= nodes.len() {
                    Some(m)
                } else {
                    walk_case(nodes, next, Some(m))
                }
            },
            None => walk_case(nodes, i + 1, cur),
        }
    }
}

/// The conversion that the scrutinee applies.
pub fn scrutinee_case(nodes: &Vec<Node>) -> (r: Option<CaseMethod>)
    ensures
        r == walk_case(nodes@, 0, None),
{
    let mut cur: Option<CaseMethod> = None;
    let mut i: usize = 0;
    while i < nodes.len()
        invariant
            walk_case(nodes@, 0, None) == walk_case(nodes@, i as int, cur),
        decreases nodes.len() - i,
    {
        let found = match &nodes[i].expr {
            ExprNode::MethodCall { name, no_args, receiver_stringish } => if *no_args
                && *receiver_stringish {
                get_case_method(name.as_str())
            } else {
                None
            },
            ExprNode::Other => None,
        };
        match found {
            Some(m) => {
                cur = Some(m);
                let step = if nodes[i].size > 1 {
                    nodes[i].size
                } else {
                    1
                };
                if step >= nodes.len() - i {
                    return cur;
                }
                i = i + step;
            },
            None => {
                i = i + 1;
            },
        }
    }
    cur
}

/// The first character of the lower-case form of `c`, by the Unicode
/// tables.
pub uninterp spec fn lowercase_first(c: char) -> Option<char>;

/// The first character of the upper-case form of `c`, by the Unicode
/// tables.
pub uninterp spec fn uppercase_first(c: char) -> Option<char>;

/// The lower-case form of `s`, by the Unicode tables.
pub uninterp spec fn lowercase_text(s: Seq<char>) -> Seq<char>;

/// The upper-case form of `s`, by the Unicode tables.
pub uninterp spec fn uppercase_text(s: Seq<char>) -> Seq<char>;

/// `c.to_lowercase().next()` (std's `char::to_lowercase`): named by
/// `lowercase_first`, a function of `c` alone.
#[verifier::external_body]
fn first_lowercase(c: char) -> (r: Option<char>)
    ensures
        r == lowercase_first(c),
{
    c.to_lowercase().next()
}

/// `c.to_uppercase().next()` (std's `char::to_uppercase`): named by
/// `uppercase_first`, a function of `c` alone.
#[verifier::external_body]
fn first_uppercase(c: char) -> (r: Option<char>)
    ensures
        r == uppercase_first(c),
{
    c.to_uppercase().next()
}

/// `s.to_lowercase()` (std's `str::to_lowercase`): named by
/// `lowercase_text`, a function of the characters of `s` alone.
#[verifier::external_body]
fn str_lowercase(s: &str) -> (r: String)
    ensures
        r@ == lowercase_text(s@),
{
    s.to_lowercase()
}

/// `s.to_uppercase()` (std's `str::to_uppercase`): named by
/// `uppercase_text`, a function of the characters of `s` alone.
#[verifier::external_body]
fn str_uppercase(s: &str) -> (r: String)
    ensures
        r@ == uppercase_text(s@),
{
    s.to_uppercase()
}

/// The ASCII lower case of `c`.
pub open spec fn ascii_lower_char(c: char) -> char {
    if 'A' <= c && c <= 'Z' {
        ((c as u32) + 32) as char
    } else {
        c
    }
}

/// The ASCII upper case of `c`.
pub open spec fn ascii_upper_char(c: char) -> char {
    if 'a' <= c && c <= 'z' {
        ((c as u32) - 32) as char
    } else {
        c
    }
}

/// Whether the literal `s` is already in the case that `m` produces, so
/// that the arm can match.
pub open spec fn in_case(m: CaseMethod, s: Seq<char>) -> bool {
    match m {
        CaseMethod::LowerCase => forall|i: int| 0 <= i < s.len() ==> lowercase_first(#[trigger] s[i]) == Some(s[i]),
        CaseMethod::AsciiLowerCase => forall|i: int| 0 <= i < s.len() ==> !('A' <= #[trigger] s[i] && s[i] <= 'Z'),
        CaseMethod::UpperCase => forall|i: int| 0 <= i < s.len() ==> uppercase_first(#[trigger] s[i]) == Some(s[i]),
        CaseMethod::AsciiUppercase => forall|i: int| 0 <= i < s.len() ==> !('a' <= #[trigger] s[i] && s[i] <= 'z'),
    }
}

fn char_in_case(m: CaseMethod, c: char) -> (r: bool)
    ensures
        r == match m {
            CaseMethod::LowerCase => lowercase_first(c) == Some(c),
            CaseMethod::AsciiLowerCase => !('A' <= c && c <= 'Z'),
            CaseMethod::UpperCase => uppercase_first(c) == Some(c),
            CaseMethod::AsciiUppercase => !('a' <= c && c <= 'z'),
        },
{
    match m {
        CaseMethod::LowerCase => first_lowercase(c) == Some(c),
        CaseMethod::AsciiLowerCase => !('A' <= c && c <= 'Z'),
        CaseMethod::UpperCase => first_uppercase(c) == Some(c),
        CaseMethod::AsciiUppercase => !('a' <= c && c <= 'z'),
    }
}

/// Whether the literal `s` is already in the case that `m` produces.
pub fn is_in_case(m: CaseMethod, s: &str) -> (r: bool)
    ensures
        r == in_case(m, s@),
{
    let n = s.unicode_len();
    let mut i: usize = 0;
    while i < n
        invariant
            n == s@.len(),
            i <= n,
            forall|k: int| 0 <= k < i ==> match m {
                CaseMethod::LowerCase => lowercase_first(#[trigger] s@[k]) == Some(s@[k]),
                CaseMethod::AsciiLowerCase => !('A' <= s@[k] && s@[k] <= 'Z'),
                CaseMethod::UpperCase => uppercase_first(s@[k]) == Some(s@[k]),
                CaseMethod::AsciiUppercase => !('a' <= s@[k] && s@[k] <= 'z'),
            },
        decreases n - i,
    {
        if !char_in_case(m, s.get_char(i)) {
            return false;
        }
        i = i + 1;
    }
    true
}

/// An arm of the `match`: the span and text of its pattern, when that is a
/// string literal.
pub struct Arm {
    pub lit: Option<(Span, String)>,
}

/// The first arm whose string literal is not in the case that `m` produces.
pub open spec fn first_bad_arm(m: CaseMethod, arms: Seq<Arm>, i: int) -> Option<(Span, Seq<char>)>
    decreases arms.len() - i,
{
    if i < 0 || i >= arms.len() {
        None
    } else {
        match arms[i].lit {
            Some((sp, text)) => if !in_case(m, text@) {
                Some((sp, text@))
            } else {
                first_bad_arm(m, arms, i + 1)
            },
            None => first_bad_arm(m, arms, i + 1),
        }
    }
}

/// The first arm whose string literal cannot match.
pub fn verify_case(m: CaseMethod, arms: &Vec<Arm>) -> (r: Option<(Span, String)>)
    ensures
        match r {
            Some((sp, text)) => first_bad_arm(m, arms@, 0) == Some((sp, text@)),
            None => first_bad_arm(m, arms@, 0) is None,
        },
{
    let mut i: usize = 0;
    while i < arms.len()
        invariant
            i <= arms.len(),
            first_bad_arm(m, arms@, 0) == first_bad_arm(m, arms@, i as int),
        decreases arms.len() - i,
    {
        match &arms[i].lit {
            Some((sp, text)) => {
                if !is_in_case(m, text.as_str()) {
                    return Some((*sp, String::from_str(text.as_str())));
                }
            },
            None => {},
        }
        i = i + 1;
    }
    None
}

/// The name of the method of `m`, and what it makes of `bad`.
pub open spec fn method_and_suggestion(m: CaseMethod, bad: Seq<char>) -> (Seq<char>, Seq<char>) {
    match m {
        CaseMethod::LowerCase => ("to_lowercase"@, lowercase_text(bad)),
        CaseMethod::AsciiLowerCase => ("to_ascii_lowercase"@, bad.map_values(|c: char| ascii_lower_char(c))),
        CaseMethod::UpperCase => ("to_uppercase"@, uppercase_text(bad)),
        CaseMethod::AsciiUppercase => ("to_ascii_uppercase"@, bad.map_values(|c: char| ascii_upper_char(c))),
    }
}

/// `s` with its ASCII letters in lower (`upper` false) or upper case.
pub fn ascii_case(s: &str, upper: bool) -> (r: String)
    ensures
        r@ == if upper {
            s@.map_values(|c: char| ascii_upper_char(c))
        } else {
            s@.map_values(|c: char| ascii_lower_char(c))
        },
{
    let n = s.unicode_len();
    let mut out = String::new();
    let mut i: usize = 0;
    while i < n
        invariant
            n == s@.len(),
            i <= n,
            out@ == if upper {
                s@.take(i as int).map_values(|c: char| ascii_upper_char(c))
            } else {
                s@.take(i as int).map_values(|c: char| ascii_lower_char(c))
            },
        decreases n - i,
    {
        let c = s.get_char(i);
        let d = if upper && 'a' <= c && c <= 'z' {
            let code = (c as u32) - 32;
            assert(code < 0xD800);
            crate::text::char_from_ascii(code)
        } else if !upper && 'A' <= c && c <= 'Z' {
            let code = (c as u32) + 32;
            crate::text::char_from_ascii(code)
        } else {
            c
        };
        crate::text::push_char(&mut out, d);
        proof {
            if upper {
                assert(s@.take(i + 1).map_values(|c: char| ascii_upper_char(c)) =~= s@.take(
                    i as int,
                ).map_values(|c: char| ascii_upper_char(c)).push(ascii_upper_char(c)));
            } else {
                assert(s@.take(i + 1).map_values(|c: char| ascii_lower_char(c)) =~= s@.take(
                    i as int,
                ).map_values(|c: char| ascii_lower_char(c)).push(ascii_lower_char(c)));
            }
        }
        i = i + 1;
    }
    assert(s@.take(n as int) =~= s@);
    out
}

/// The report on an arm whose literal `bad` cannot match after the
/// conversion `m`: the literal in the right case.
pub open spec fn case_lint_spec(m: CaseMethod, span: Span, bad: Seq<char>) -> DiagModel {
    let (method, sugg) = method_and_suggestion(m, bad);
    DiagModel {
        span,
        msg: "this `match` arm has a differing case than its expression"@,
        note: None,
        suggestion: Some(
            (
                span,
                "consider changing the case of this arm to respect `"@ + method + "`"@,
                "\""@ + sugg + "\""@,
                Applicability::MachineApplicable,
            ),
        ),
    }
}

/// Reports an arm whose literal cannot match after the conversion `m`.
pub fn lint(m: CaseMethod, span: Span, bad: &str) -> (r: Diagnostic)
    ensures
        r@ == case_lint_spec(m, span, bad@),
{
    let (method, sugg) = match m {
        CaseMethod::LowerCase => ("to_lowercase", str_lowercase(bad)),
        CaseMethod::AsciiLowerCase => ("to_ascii_lowercase", ascii_case(bad, false)),
        CaseMethod::UpperCase => ("to_uppercase", str_uppercase(bad)),
        CaseMethod::AsciiUppercase => ("to_ascii_uppercase", ascii_case(bad, true)),
    };
    Diagnostic {
        span,
        msg: String::from_str("this `match` arm has a differing case than its expression"),
        note: None,
        suggestion: Some(
            Suggestion {
                span,
                msg: concat3("consider changing the case of this arm to respect `", method, "`"),
                replacement: concat3("\"", sugg.as_str(), "\""),
                applicability: Applicability::MachineApplicable,
            },
        ),
    }
}

/// Checks a `match` whose scrutinee has the sub-expressions `nodes` and is
/// a `&str` (`scrutinee_is_str`), with the arms `arms`.
pub fn check(scrutinee_is_str: bool, nodes: &Vec<Node>, arms: &Vec<Arm>) -> (r: Option<Diagnostic>)
    ensures
        match r {
            Some(d) => {
                &&& scrutinee_is_str
                &&& walk_case(nodes@, 0, None) matches Some(m) && (first_bad_arm(m, arms@, 0) matches Some(
                    (sp, text),
                ) && d@ == case_lint_spec(m, sp, text))
            },
            None => {
                ||| !scrutinee_is_str
                ||| walk_case(nodes@, 0, None) is None
                ||| (walk_case(nodes@, 0, None) matches Some(m) && first_bad_arm(m, arms@, 0) is None)
            },
        },
{
    if !scrutinee_is_str {
        return None;
    }
    match scrutinee_case(nodes) {
        None => None,
        Some(m) => match verify_case(m, arms) {
            None => None,
            Some((sp, text)) => Some(lint(m, sp, text.as_str())),
        },
    }
}

/// A method name selects the conversion it names and no other: the lint's
/// message names that method back, every conversion is selected by its own
/// method's name, and the Unicode conversions (`to_lowercase`,
/// `to_uppercase`) judge a literal character by character with the Unicode
/// tables, while the ASCII ones look at ASCII letters only.
pub proof fn lemma_case_method_named(name: Seq<char>, m: CaseMethod, s: Seq<char>, bad: Seq<char>)
    ensures
        case_method_of(name) matches Some(c) ==> method_and_suggestion(c, bad).0 == name,
        case_method_of(method_and_suggestion(m, bad).0) == Some(m),
        name == "to_uppercase"@ ==> (case_method_of(name) matches Some(c) && (in_case(c, s) <==> forall|i: int|
            0 <= i < s.len() ==> uppercase_first(#[trigger] s[i]) == Some(s[i]))),
        name == "to_lowercase"@ ==> (case_method_of(name) matches Some(c) && (in_case(c, s) <==> forall|i: int|
            0 <= i < s.len() ==> lowercase_first(#[trigger] s[i]) == Some(s[i]))),
        name == "to_ascii_uppercase"@ ==> (case_method_of(name) matches Some(c) && (in_case(c, s)
            <==> forall|i: int| 0 <= i < s.len() ==> !('a' <= #[trigger] s[i] && s[i] <= 'z'))),
        name == "to_ascii_lowercase"@ ==> (case_method_of(name) matches Some(c) && (in_case(c, s)
            <==> forall|i: int| 0 <= i < s.len() ==> !('A' <= #[trigger] s[i] && s[i] <= 'Z'))),
{
    reveal_strlit("to_lowercase");
    reveal_strlit("to_ascii_lowercase");
    reveal_strlit("to_uppercase");
    reveal_strlit("to_ascii_uppercase");
    assert("to_uppercase"@ != "to_lowercase"@) by {
        assert("to_uppercase"@[3] != "to_lowercase"@[3]);
    }
    assert("to_ascii_uppercase"@ != "to_ascii_lowercase"@) by {
        assert("to_ascii_uppercase"@[9] != "to_ascii_lowercase"@[9]);
    }
    assert("to_uppercase"@.len() != "to_ascii_uppercase"@.len());
    assert("to_uppercase"@ != "to_ascii_uppercase"@ && "to_uppercase"@ != "to_ascii_lowercase"@);
    assert("to_lowercase"@.len() != "to_ascii_lowercase"@.len());
    assert("to_lowercase"@ != "to_ascii_uppercase"@ && "to_lowercase"@ != "to_ascii_lowercase"@);
}

} // verus!
