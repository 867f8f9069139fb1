//! Lints on binary operators: an assignment operator whose right side
//! repeats the assignee (`misrefactored_assign_op`), an operation that always
//! yields zero (`erasing_op`), and strict comparison of floats (`float_cmp`).
//!
//! What the compiler knows of the operands (their printed form, whether two
//! expressions are the same value, their types and constant values) reaches
//! these checks as plain values.
use vstd::prelude::*;
use crate::diag::{Applicability, Diagnostic, Span, Suggestion};
use crate::text::{concat3, ends_with_str, starts_with_str, str_eq};

verus! {

/// A binary operator.
#[derive(Clone, Copy, PartialEq, Eq, Structural)]
pub enum BinOpKind {
    Add,
    Sub,
    Mul,
    Div,
    Rem,
    And,
    Or,
    BitXor,
    BitAnd,
    BitOr,
    Shl,
    Shr,
    Eq,
    Lt,
    Le,
    Ne,
    Ge,
    Gt,
}

/// How the operator is written.
pub open spec fn op_text(op: BinOpKind) -> Seq<char> {
    match op {
        BinOpKind::Add => "+"@,
        BinOpKind::Sub => "-"@,
        BinOpKind::Mul => "*"@,
        BinOpKind::Div => "/"@,
        BinOpKind::Rem => "%"@,
        BinOpKind::And => "&&"@,
        BinOpKind::Or => "||"@,
        BinOpKind::BitXor => "^"@,
        BinOpKind::BitAnd => "&"@,
        BinOpKind::BitOr => "|"@,
        BinOpKind::Shl => "<<"@,
        BinOpKind::Shr => ">>"@,
        BinOpKind::Eq => "=="@,
        BinOpKind::Lt => "<"@,
        BinOpKind::Le => "<="@,
        BinOpKind::Ne => "!="@,
        BinOpKind::Ge => ">="@,
        BinOpKind::Gt => ">"@,
    }
}

impl BinOpKind {
    /// How the operator is written.
    pub fn as_str(self) -> (r: &'static str)
        ensures
            r@ == op_text(self),
    {
        match self {
            BinOpKind::Add => "+",
            BinOpKind::Sub => "-",
            BinOpKind::Mul => "*",
            BinOpKind::Div => "/",
            BinOpKind::Rem => "%",
            BinOpKind::And => "&&",
            BinOpKind::Or => "||",
            BinOpKind::BitXor => "^",
            BinOpKind::BitAnd => "&",
            BinOpKind::BitOr => "|",
            BinOpKind::Shl => "<<",
            BinOpKind::Shr => ">>",
            BinOpKind::Eq => "==",
            BinOpKind::Lt => "<",
            BinOpKind::Le => "<=",
            BinOpKind::Ne => "!=",
            BinOpKind::Ge => ">=",
            BinOpKind::Gt => ">",
        }
    }
}

/// Whether the operands of `op` may be swapped without changing the result.
pub open spec fn commutative(op: BinOpKind) -> bool {
    match op {
        BinOpKind::Add | BinOpKind::Mul | BinOpKind::And | BinOpKind::Or | BinOpKind::BitXor
        | BinOpKind::BitAnd | BinOpKind::BitOr | BinOpKind::Eq | BinOpKind::Ne => true,
        _ => false,
    }
}

/// Whether the operands of `op` may be swapped without changing the result.
pub fn is_commutative(op: BinOpKind) -> (r: bool)
    ensures
        r == commutative(op),
{
    match op {
        BinOpKind::Add | BinOpKind::Mul | BinOpKind::And | BinOpKind::Or | BinOpKind::BitXor
        | BinOpKind::BitAnd | BinOpKind::BitOr | BinOpKind::Eq | BinOpKind::Ne => true,
        BinOpKind::Sub | BinOpKind::Div | BinOpKind::Rem | BinOpKind::Shl | BinOpKind::Shr
        | BinOpKind::Lt | BinOpKind::Le | BinOpKind::Ge | BinOpKind::Gt => false,
    }
}

/// A lint with any number of proposed replacements of its span.
pub struct MultiLint {
    pub span: Span,
    pub msg: String,
    /// Each replacement: its message and its text.
    pub suggestions: Vec<(String, String)>,
    /// How safely the replacements can be applied.
    pub applicability: Applicability,
}

/// A lint with its texts as character sequences.
pub struct MultiLintView {
    pub span: Span,
    pub msg: Seq<char>,
    pub suggestions: Seq<(Seq<char>, Seq<char>)>,
    pub applicability: Applicability,
}

impl View for MultiLint {
    type V = MultiLintView;

    open spec fn view(&self) -> MultiLintView {
        MultiLintView {
            span: self.span,
            msg: self.msg@,
            suggestions: self.suggestions@.map_values(|p: (String, String)| (p.0@, p.1@)),
            applicability: self.applicability,
        }
    }
}

/// The values of a list of lints.
pub open spec fn multi_view(v: Seq<MultiLint>) -> Seq<MultiLintView> {
    v.map_values(|l: MultiLint| l@)
}

/// The right operand of `lhs op= rhs` where `rhs` is `l op r`.
pub struct AssignOpRhs {
    /// The operator of `rhs`.
    pub op: BinOpKind,
    /// `lhs` and `l` are the same value.
    pub lhs_is_left: bool,
    /// `lhs` and `r` are the same value.
    pub lhs_is_right: bool,
    /// The source text of `l` and of `r`, where there is one.
    pub left_text: Option<String>,
    pub right_text: Option<String>,
    /// How `lhs op rhs` prints, with the parentheses it needs.
    pub long_binop: String,
}

/// The message of `misrefactored_assign_op`.
pub open spec fn misrefactored_msg() -> Seq<char> {
    "variable appears on both sides of an assignment operation"@
}

/// The lint on `assignee op= rhs`, where the other operand of `rhs` reads
/// `other`: the suggestions `a op= r` and `a = a op rhs` when both texts
/// exist.
pub open spec fn misrefactored_spec(
    span: Span,
    op: BinOpKind,
    assignee: Option<Seq<char>>,
    other: Option<Seq<char>>,
    long_binop: Seq<char>,
) -> MultiLintView {
    MultiLintView {
        span,
        msg: misrefactored_msg(),
        suggestions: match (assignee, other) {
            (Some(a), Some(r)) => {
                let long = a + " = "@ + long_binop;
                seq![
                    (
                        "did you mean `"@ + a + " = "@ + a + " "@ + op_text(op) + " "@ + r + "` or `"@
                            + long + "`? Consider replacing it with"@,
                        a + " "@ + op_text(op) + "= "@ + r,
                    ),
                    ("or"@, long),
                ]
            },
            _ => Seq::empty(),
        },
        applicability: Applicability::MaybeIncorrect,
    }
}

/// The view of an optional string.
pub open spec fn opt_view(o: Option<String>) -> Option<Seq<char>> {
    match o {
        Some(s) => Some(s@),
        None => None,
    }
}

/// The lints on `lhs op= rhs` at `span`, where the text of `lhs` is
/// `lhs_text`: one where `lhs` is the left operand of `rhs`, and one where it
/// is the right operand of a commutative `rhs`.
pub open spec fn assign_op_spec(span: Span, op: BinOpKind, lhs_text: Option<Seq<char>>, rhs: AssignOpRhs) -> Seq<
    MultiLintView,
> {
    if op != rhs.op {
        Seq::empty()
    } else {
        let first = if rhs.lhs_is_left {
            seq![misrefactored_spec(span, op, lhs_text, opt_view(rhs.right_text), rhs.long_binop@)]
        } else {
            Seq::empty()
        };
        if commutative(op) && rhs.lhs_is_right {
            first.push(
                misrefactored_spec(span, op, lhs_text, opt_view(rhs.left_text), rhs.long_binop@),
            )
        } else {
            first
        }
    }
}

fn lint_misrefactored_assign_op(
    span: Span,
    op: BinOpKind,
    assignee: &Option<String>,
    other: &Option<String>,
    long_binop: &str,
) -> (r: MultiLint)
    ensures
        r@ == misrefactored_spec(span, op, opt_view(*assignee), opt_view(*other), long_binop@),
{
    let mut suggestions: Vec<(String, String)> = Vec::new();
    match (assignee, other) {
        (Some(a), Some(r)) => {
            let ops = op.as_str();
            let long = concat3(a.as_str(), " = ", long_binop);
            let mut m = concat3("did you mean `", a.as_str(), " = ");
            m.append(a.as_str());
            m.append(" ");
            m.append(ops);
            m.append(" ");
            m.append(r.as_str());
            m.append("` or `");
            m.append(long.as_str());
            m.append("`? Consider replacing it with");
            let mut short = concat3(a.as_str(), " ", ops);
            short.append("= ");
            short.append(r.as_str());
            suggestions.push((m, short));
            suggestions.push((String::from_str("or"), long));
        },
        _ => {},
    }
    let r = MultiLint {
        span,
        msg: String::from_str("variable appears on both sides of an assignment operation"),
        suggestions,
        applicability: Applicability::MaybeIncorrect,
    };
    assert(r@.suggestions =~= misrefactored_spec(
        span,
        op,
        opt_view(*assignee),
        opt_view(*other),
        long_binop@,
    ).suggestions);
    r
}

/// Checks `lhs op= rhs` at `span` for a right side that repeats `lhs`.
pub fn check_assign_op(span: Span, op: BinOpKind, lhs_text: &Option<String>, rhs: &AssignOpRhs) -> (r: Vec<
    MultiLint,
>)
    ensures
        multi_view(r@) == assign_op_spec(span, op, opt_view(*lhs_text), *rhs),
{
    let mut out: Vec<MultiLint> = Vec::new();
    if op != rhs.op {
        assert(multi_view(out@) =~= Seq::<MultiLintView>::empty());
        return out;
    }
    if rhs.lhs_is_left {
        out.push(lint_misrefactored_assign_op(span, op, lhs_text, &rhs.right_text, rhs.long_binop.as_str()));
    }
    if is_commutative(op) && rhs.lhs_is_right {
        out.push(lint_misrefactored_assign_op(span, op, lhs_text, &rhs.left_text, rhs.long_binop.as_str()));
    }
    assert(multi_view(out@) =~= assign_op_spec(span, op, opt_view(*lhs_text), *rhs));
    out
}

/// An operand of an arithmetic operation, for `erasing_op`.
#[derive(Clone, Copy, PartialEq, Eq, Structural)]
pub struct ErasingOperand {
    /// The operand is the integer constant zero.
    pub is_zero: bool,
    /// Its type, references peeled, as a number that names it.
    pub ty: u64,
}

/// The message of `erasing_op`.
pub open spec fn erasing_msg() -> Seq<char> {
    "this operation will always return zero. This is likely not the intended outcome"@
}

/// Whether the zero operand `op` erases `other` in an operation whose result
/// has type `parent_ty`: it does when `other` has the same type as the
/// result.
pub open spec fn erases(op: ErasingOperand, other: ErasingOperand, parent_ty: u64) -> bool {
    op.is_zero && other.ty == parent_ty
}

/// The number of `erasing_op` lints on `left op right` whose result has type
/// `parent_ty`: products and bitwise ands with zero on either side, and
/// divisions of zero.
pub open spec fn erasing_count(op: BinOpKind, left: ErasingOperand, right: ErasingOperand, parent_ty: u64) -> nat {
    match op {
        BinOpKind::Mul | BinOpKind::BitAnd => (if erases(left, right, parent_ty) {
            1nat
        } else {
            0nat
        }) + (if erases(right, left, parent_ty) {
            1nat
        } else {
            0nat
        }),
        BinOpKind::Div => if erases(left, right, parent_ty) {
            1nat
        } else {
            0nat
        },
        _ => 0nat,
    }
}

/// Checks `left op right` at `span`, whose result has type `parent_ty`,
/// for an operation that always yields zero.
pub fn check_erasing_op(span: Span, op: BinOpKind, left: ErasingOperand, right: ErasingOperand, parent_ty: u64) -> (r:
    Vec<Diagnostic>)
    ensures
        r@.len() == erasing_count(op, left, right, parent_ty),
        forall|i: int| 0 <= i < r@.len() ==> (#[trigger] r@[i])@ == crate::diag::plain_diag(span, erasing_msg()),
{
    let mut out: Vec<Diagnostic> = Vec::new();
    match op {
        BinOpKind::Mul | BinOpKind::BitAnd => {
            if left.is_zero && right.ty == parent_ty {
                out.push(crate::diag::make_plain(span, String::from_str(
                    "this operation will always return zero. This is likely not the intended outcome",
                )));
            }
            if right.is_zero && left.ty == parent_ty {
                out.push(crate::diag::make_plain(span, String::from_str(
                    "this operation will always return zero. This is likely not the intended outcome",
                )));
            }
        },
        BinOpKind::Div => {
            if left.is_zero && right.ty == parent_ty {
                out.push(crate::diag::make_plain(span, String::from_str(
                    "this operation will always return zero. This is likely not the intended outcome",
                )));
            }
        },
        _ => {},
    }
    out
}


/// What the lint needs of a float constant: whether it is zero or infinite.
pub enum ConstValue {
    /// A float.
    Float { zero_or_infinite: bool },
    /// An array; each element is a float (with its class) or not.
    FloatVec(Vec<Option<bool>>),
    /// Any other constant.
    Other,
}

/// The shape of an operand, as far as the signum check looks into it.
pub enum ExprShape {
    /// `-inner`.
    Neg(Box<ExprShape>),
    /// `receiver.name(..)`.
    MethodCall { name: String, receiver_is_float: bool },
    /// Anything else.
    Other,
}

/// An operand of a comparison, for `float_cmp`.
pub struct FloatOperand {
    /// Its type, references peeled, is a float or an array of floats.
    pub is_float: bool,
    /// Its type, references peeled, is an array.
    pub is_array: bool,
    /// Its constant value, if it has one, and whether that comes from a
    /// named constant.
    pub constant: Option<(ConstValue, bool)>,
    pub shape: ExprShape,
}

/// Whether comparing with this constant is exact enough: zero, infinity, or
/// an array of those.
pub open spec fn allowed_const(c: ConstValue) -> bool {
    match c {
        ConstValue::Float { zero_or_infinite } => zero_or_infinite,
        ConstValue::FloatVec(v) => forall|i: int| 0 <= i < v@.len() ==> #[trigger] v@[i] == Some(true),
        ConstValue::Other => false,
    }
}

/// Whether the operand's constant value allows strict comparison.
pub open spec fn allowed_operand(o: FloatOperand) -> bool {
    match o.constant {
        Some((c, _)) => allowed_const(c),
        None => false,
    }
}

/// Whether the operand comes from a named constant.
pub open spec fn named_operand(o: FloatOperand) -> bool {
    match o.constant {
        Some((_, named)) => named,
        None => false,
    }
}

/// Whether the expression is the result of `signum()` on a float, possibly
/// negated.
pub open spec fn signum_shape(e: ExprShape) -> bool
    decreases e,
{
    match e {
        ExprShape::Neg(inner) => signum_shape(*inner),
        ExprShape::MethodCall { name, receiver_is_float } => name@ == "signum"@ && receiver_is_float,
        ExprShape::Other => false,
    }
}

/// Whether the expression is the result of `signum()` on a float.
pub fn is_signum(e: &ExprShape) -> (r: bool)
    ensures
        r == signum_shape(*e),
    decreases e,
{
    match e {
        ExprShape::Neg(inner) => is_signum(inner),
        ExprShape::MethodCall { name, receiver_is_float } => str_eq(name.as_str(), "signum")
            && *receiver_is_float,
        ExprShape::Other => false,
    }
}

fn is_allowed(o: &FloatOperand) -> (r: bool)
    ensures
        r == allowed_operand(*o),
{
    match &o.constant {
        Some((ConstValue::Float { zero_or_infinite }, _)) => *zero_or_infinite,
        Some((ConstValue::FloatVec(v), _)) => {
            let mut i: usize = 0;
            while i < v.len()
                invariant
                    i <= v.len(),
                    allowed_operand(*o) == forall|j: int|
                        0 <= j < v@.len() ==> #[trigger] v@[j] == Some(true),
                    forall|j: int| 0 <= j < i ==> #[trigger] v@[j] == Some(true),
                decreases v.len() - i,
            {
                match v[i] {
                    Some(true) => {},
                    _ => {
                        return false;
                    },
                }
                i = i + 1;
            }
            true
        },
        _ => false,
    }
}

fn is_named_constant(o: &FloatOperand) -> (r: bool)
    ensures
        r == named_operand(*o),
{
    match &o.constant {
        Some((_, named)) => *named,
        None => false,
    }
}

/// Which of the two lints reports a comparison.
#[derive(Clone, Copy, PartialEq, Eq, Structural)]
pub enum FloatLint {
    FloatCmp,
    FloatCmpConst,
}

/// The lint and the message for a comparison of constants or not, of arrays
/// or not.
pub open spec fn lint_and_message(constants: bool, arrays: bool) -> (FloatLint, Seq<char>) {
    if constants {
        (
            FloatLint::FloatCmpConst,
            if arrays {
                "strict comparison of `f32` or `f64` constant arrays"@
            } else {
                "strict comparison of `f32` or `f64` constant"@
            },
        )
    } else {
        (
            FloatLint::FloatCmp,
            if arrays {
                "strict comparison of `f32` or `f64` arrays"@
            } else {
                "strict comparison of `f32` or `f64`"@
            },
        )
    }
}

/// The lint and the message for a comparison of constants or not, of arrays
/// or not.
pub fn get_lint_and_message(constants: bool, arrays: bool) -> (r: (FloatLint, &'static str))
    ensures
        r.0 == lint_and_message(constants, arrays).0,
        r.1@ == lint_and_message(constants, arrays).1,
{
    if constants {
        (
            FloatLint::FloatCmpConst,
            if arrays {
                "strict comparison of `f32` or `f64` constant arrays"
            } else {
                "strict comparison of `f32` or `f64` constant"
            },
        )
    } else {
        (
            FloatLint::FloatCmp,
            if arrays {
                "strict comparison of `f32` or `f64` arrays"
            } else {
                "strict comparison of `f32` or `f64`"
            },
        )
    }
}

/// Whether the comparison sits in an item whose name says that it defines
/// equality: `eq`, `ne`, `is_nan`, `eq_..` or `.._eq`.
pub open spec fn equality_item(name: Seq<char>) -> bool {
    name == "eq"@ || name == "ne"@ || name == "is_nan"@ || "eq_"@.is_prefix_of(name) || (
    "_eq"@.len() <= name.len() && name.skip(name.len() - "_eq"@.len()) == "_eq"@)
}

/// A report of `float_cmp`.
pub struct FloatCmpLint {
    pub lint: FloatLint,
    pub span: Span,
    pub msg: String,
    /// The comparison within a margin of error, unless arrays are compared.
    pub suggestion: Option<Suggestion>,
    pub note: String,
}

/// The note of `float_cmp`.
pub open spec fn float_note() -> Seq<char> {
    "`f32::EPSILON` and `f64::EPSILON` are available for the `error_margin`"@
}

/// Whether `left op right`, in the item named `item` (if any), is a strict
/// comparison of floats that the lint reports.
pub open spec fn float_cmp_reported(op: BinOpKind, left: FloatOperand, right: FloatOperand, item: Option<Seq<char>>) -> bool {
    &&& (op == BinOpKind::Eq || op == BinOpKind::Ne)
    &&& (left.is_float || right.is_float)
    &&& !(allowed_operand(left) || allowed_operand(right))
    &&& !(signum_shape(left.shape) && signum_shape(right.shape))
    &&& !(item matches Some(n) && equality_item(n))
}

/// Checks `left op right` at `span` for a strict comparison of floats.
/// `difference` is how `left - right` prints; `item` is the name of the
/// enclosing item, if it has one.
pub fn check_float_cmp(
    span: Span,
    op: BinOpKind,
    left: &FloatOperand,
    right: &FloatOperand,
    item: &Option<String>,
    difference: &str,
) -> (r: Option<FloatCmpLint>)
    ensures
        r is Some <==> float_cmp_reported(op, *left, *right, opt_view(*item)),
        r matches Some(l) ==> {
            let arrays = left.is_array || right.is_array;
            let lm = lint_and_message(named_operand(*left) || named_operand(*right), arrays);
            &&& l.lint == lm.0
            &&& l.msg@ == lm.1
            &&& l.span == span
            &&& l.note@ == float_note()
            &&& match l.suggestion {
                Some(g) => {
                    &&& !arrays
                    &&& g.span == span
                    &&& g.msg@ == "consider comparing them within some margin of error"@
                    &&& g.replacement@ == "("@ + difference@ + ").abs() "@ + (if op == BinOpKind::Eq {
                        "<"@
                    } else {
                        ">"@
                    }) + " error_margin"@
                    &&& g.applicability == Applicability::HasPlaceholders
                },
                None => arrays,
            }
        },
{
    if !((op == BinOpKind::Eq || op == BinOpKind::Ne) && (left.is_float || right.is_float)) {
        return None;
    }
    if is_allowed(left) || is_allowed(right) {
        return None;
    }
    if is_signum(&left.shape) && is_signum(&right.shape) {
        return None;
    }
    match item {
        Some(name) => {
            let n = name.as_str();
            proof {
                reveal_strlit("_eq");
            }
            if str_eq(n, "eq") || str_eq(n, "ne") || str_eq(n, "is_nan") || starts_with_str(n, "eq_")
                || ends_with_str(n, "_eq") {
                return None;
            }
        },
        None => {},
    }
    let arrays = left.is_array || right.is_array;
    let (lint, msg) = get_lint_and_message(is_named_constant(left) || is_named_constant(right), arrays);
    let suggestion = if !arrays {
        let mut s = concat3("(", difference, ").abs() ");
        if op == BinOpKind::Eq {
            s.append("<");
        } else {
            s.append(">");
        }
        s.append(" error_margin");
        Some(
            Suggestion {
                span,
                msg: String::from_str("consider comparing them within some margin of error"),
                replacement: s,
                applicability: Applicability::HasPlaceholders,
            },
        )
    } else {
        None
    };
    Some(
        FloatCmpLint {
            lint,
            span,
            msg: String::from_str(msg),
            suggestion,
            note: String::from_str(
                "`f32::EPSILON` and `f64::EPSILON` are available for the `error_margin`",
            ),
        },
    )
}

} // verus!
