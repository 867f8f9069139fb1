use crabkit::diag::{Applicability, Span};
use crabkit::operators::{
    check_assign_op, check_erasing_op, check_float_cmp, get_lint_and_message, is_commutative, is_signum,
    AssignOpRhs, BinOpKind, ConstValue, ErasingOperand, ExprShape, FloatLint, FloatOperand,
};

fn sp() -> Span {
    Span { lo: 0, hi: 9 }
}

#[test]
fn commutative_operators() {
    assert!(is_commutative(BinOpKind::Add));
    assert!(is_commutative(BinOpKind::Ne));
    assert!(!is_commutative(BinOpKind::Sub));
    assert!(!is_commutative(BinOpKind::Shl));
    assert_eq!(BinOpKind::Shl.as_str(), "<<");
    assert_eq!(BinOpKind::BitXor.as_str(), "^");
}

#[test]
fn misrefactored_assign_op() {
    // a += a + b
    let rhs = AssignOpRhs {
        op: BinOpKind::Add,
        lhs_is_left: true,
        lhs_is_right: false,
        left_text: Some("a".to_string()),
        right_text: Some("b".to_string()),
        long_binop: "a + (a + b)".to_string(),
    };
    let lints = check_assign_op(sp(), BinOpKind::Add, &Some("a".to_string()), &rhs);
    assert_eq!(lints.len(), 1);
    assert_eq!(lints[0].msg, "variable appears on both sides of an assignment operation");
    assert!(lints[0].applicability == Applicability::MaybeIncorrect);
    assert_eq!(
        lints[0].suggestions,
        vec![
            (
                "did you mean `a = a + b` or `a = a + (a + b)`? Consider replacing it with".to_string(),
                "a += b".to_string()
            ),
            ("or".to_string(), "a = a + (a + b)".to_string()),
        ]
    );
    // a *= b * a: commutative, lints once more for the right operand.
    let rhs = AssignOpRhs { op: BinOpKind::Mul, lhs_is_left: true, lhs_is_right: true, left_text: Some("b".to_string()), right_text: Some("a".to_string()), long_binop: "a * (b * a)".to_string() };
    assert_eq!(check_assign_op(sp(), BinOpKind::Mul, &Some("a".to_string()), &rhs).len(), 2);
    // a -= b - a: not commutative.
    let rhs = AssignOpRhs { op: BinOpKind::Sub, lhs_is_left: false, lhs_is_right: true, left_text: None, right_text: None, long_binop: String::new() };
    assert!(check_assign_op(sp(), BinOpKind::Sub, &Some("a".to_string()), &rhs).is_empty());
    // a += a * b: operators differ.
    let rhs = AssignOpRhs { op: BinOpKind::Mul, lhs_is_left: true, lhs_is_right: false, left_text: None, right_text: None, long_binop: String::new() };
    assert!(check_assign_op(sp(), BinOpKind::Add, &None, &rhs).is_empty());
    // Without source text, no suggestion.
    let rhs = AssignOpRhs { op: BinOpKind::Add, lhs_is_left: true, lhs_is_right: false, left_text: None, right_text: None, long_binop: String::new() };
    let l = check_assign_op(sp(), BinOpKind::Add, &None, &rhs);
    assert!(l[0].suggestions.is_empty());
}

#[test]
fn erasing_operations() {
    let zero = ErasingOperand { is_zero: true, ty: 1 };
    let x = ErasingOperand { is_zero: false, ty: 1 };
    let other_ty = ErasingOperand { is_zero: false, ty: 2 };
    let d = check_erasing_op(sp(), BinOpKind::Mul, zero, x, 1);
    assert_eq!(d.len(), 1);
    assert_eq!(d[0].msg, "this operation will always return zero. This is likely not the intended outcome");
    assert_eq!(check_erasing_op(sp(), BinOpKind::BitAnd, x, zero, 1).len(), 1);
    assert_eq!(check_erasing_op(sp(), BinOpKind::Div, x, zero, 1).len(), 0);
    assert_eq!(check_erasing_op(sp(), BinOpKind::Div, zero, x, 1).len(), 1);
    assert_eq!(check_erasing_op(sp(), BinOpKind::Mul, zero, other_ty, 1).len(), 0);
    assert_eq!(check_erasing_op(sp(), BinOpKind::Add, zero, x, 1).len(), 0);
}

fn float(constant: Option<(ConstValue, bool)>) -> FloatOperand {
    FloatOperand { is_float: true, is_array: false, constant, shape: ExprShape::Other }
}

#[test]
fn float_comparisons() {
    let l = check_float_cmp(sp(), BinOpKind::Eq, &float(None), &float(None), &None, "a - b").unwrap();
    assert!(l.lint == FloatLint::FloatCmp);
    assert_eq!(l.msg, "strict comparison of `f32` or `f64`");
    let g = l.suggestion.unwrap();
    assert_eq!(g.replacement, "(a - b).abs() < error_margin");
    assert_eq!(g.msg, "consider comparing them within some margin of error");
    assert!(g.applicability == Applicability::HasPlaceholders);
    assert_eq!(l.note, "`f32::EPSILON` and `f64::EPSILON` are available for the `error_margin`");
    let named = float(Some((ConstValue::Float { zero_or_infinite: false }, true)));
    let l = check_float_cmp(sp(), BinOpKind::Ne, &float(None), &named, &None, "x - C").unwrap();
    assert!(l.lint == FloatLint::FloatCmpConst);
    assert_eq!(l.suggestion.unwrap().replacement, "(x - C).abs() > error_margin");
    // Comparing with zero is fine.
    let zero = float(Some((ConstValue::Float { zero_or_infinite: true }, false)));
    assert!(check_float_cmp(sp(), BinOpKind::Eq, &float(None), &zero, &None, "").is_none());
    assert!(check_float_cmp(sp(), BinOpKind::Eq, &float(None), &float(Some((ConstValue::FloatVec(vec![Some(true), Some(true)]), false))), &None, "").is_none());
    // Inside an equality implementation.
    assert!(check_float_cmp(sp(), BinOpKind::Eq, &float(None), &float(None), &Some("eq_approx".to_string()), "").is_none());
    assert!(check_float_cmp(sp(), BinOpKind::Eq, &float(None), &float(None), &Some("approx_eq".to_string()), "").is_none());
    // Other operators and non-floats.
    assert!(check_float_cmp(sp(), BinOpKind::Lt, &float(None), &float(None), &None, "").is_none());
    // Arrays: no suggestion.
    let mut arr = float(None);
    arr.is_array = true;
    let l = check_float_cmp(sp(), BinOpKind::Eq, &arr, &float(None), &None, "").unwrap();
    assert_eq!(l.msg, "strict comparison of `f32` or `f64` arrays");
    assert!(l.suggestion.is_none());
    assert_eq!(get_lint_and_message(true, true).1, "strict comparison of `f32` or `f64` constant arrays");
}

#[test]
fn signum_results() {
    let s = ExprShape::MethodCall { name: "signum".to_string(), receiver_is_float: true };
    assert!(is_signum(&s));
    let neg = ExprShape::Neg(Box::new(ExprShape::Neg(Box::new(s))));
    assert!(is_signum(&neg));
    assert!(!is_signum(&ExprShape::MethodCall { name: "abs".to_string(), receiver_is_float: true }));
    let a = FloatOperand { is_float: true, is_array: false, constant: None, shape: neg };
    let b = FloatOperand { is_float: true, is_array: false, constant: None, shape: ExprShape::MethodCall { name: "signum".to_string(), receiver_is_float: true } };
    assert!(check_float_cmp(sp(), BinOpKind::Eq, &a, &b, &None, "").is_none());
}
