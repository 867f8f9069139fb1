use crabkit::diag::{Applicability, Span};
use crabkit::expr_lints::{
    check_for_parens, check_from_str_radix, check_option_env_unwrap, check_range, check_set_readonly,
    check_swap, snippet_enclosed_in_parenthesis, MethodCallFacts, Operand, RadixCall, RangeBound, SwapArg,
};

fn sp(lo: u32, hi: u32) -> Span {
    Span { lo, hi }
}

#[test]
fn parens_on_range_literals() {
    assert!(snippet_enclosed_in_parenthesis("(1)"));
    assert!(!snippet_enclosed_in_parenthesis("(1"));
    assert!(!snippet_enclosed_in_parenthesis(""));
    let b = RangeBound { span: sp(0, 3), lit: Some((sp(1, 2), "1".to_string(), false)), snippet: "(1)".to_string(), lit_app: Applicability::MachineApplicable };
    let d = check_for_parens(&b, false).unwrap();
    assert_eq!(d.msg, "needless parenthesis on range literals can be removed");
    let g = d.suggestion.unwrap();
    assert_eq!(g.replacement, "1");
    assert!(g.applicability == Applicability::MachineApplicable);
    let from_macro = RangeBound { span: sp(0, 3), lit: Some((sp(1, 2), "1".to_string(), false)), snippet: "(1)".to_string(), lit_app: Applicability::MaybeIncorrect };
    assert!(check_for_parens(&from_macro, false).unwrap().suggestion.unwrap().applicability == Applicability::MaybeIncorrect);
    let f = RangeBound { span: sp(0, 5), lit: Some((sp(1, 4), "1.0".to_string(), true)), snippet: "(1.0)".to_string(), lit_app: Applicability::MachineApplicable };
    assert!(check_for_parens(&f, true).is_none());
    assert!(check_for_parens(&f, false).is_some());
    let plain = RangeBound { span: sp(0, 1), lit: Some((sp(0, 1), "1".to_string(), false)), snippet: "1".to_string(), lit_app: Applicability::MachineApplicable };
    assert!(check_for_parens(&plain, false).is_none());
    let f2 = RangeBound { span: sp(0, 5), lit: Some((sp(1, 4), "1.0".to_string(), true)), snippet: "(1.0)".to_string(), lit_app: Applicability::MachineApplicable };
    assert_eq!(check_range(&Some(f), &Some(b)).len(), 1);
    assert_eq!(check_range(&None, &Some(f2)).len(), 1);
}

#[test]
fn swap_of_raw_pointers() {
    let a = SwapArg { text: "&mut *x".to_string(), ptr_deref: Some(Some("x".to_string())) };
    let b = SwapArg { text: "&mut y".to_string(), ptr_deref: None };
    let d = check_swap(sp(0, 9), &a, &b, Applicability::MachineApplicable).unwrap();
    assert_eq!(d.msg, "call to `core::mem::swap` with a parameter derived from a raw pointer");
    let g = d.suggestion.unwrap();
    assert!(g.span == sp(0, 9));
    assert_eq!(g.msg, "use ptr::swap");
    assert_eq!(g.replacement, "core::ptr::swap(x, &mut y)");
    assert!(g.applicability == Applicability::MachineApplicable);
    let c = SwapArg { text: "m!()".to_string(), ptr_deref: Some(None) };
    assert!(check_swap(sp(0, 9), &c, &b, Applicability::MachineApplicable).unwrap().suggestion.is_none());
    assert!(check_swap(sp(0, 9), &b, &b, Applicability::MachineApplicable).is_none());
}

fn call(method: &str) -> MethodCallFacts {
    MethodCallFacts { span: sp(0, 4), method: method.to_string(), receiver_is_permissions: true, single_false_arg: true, receiver_from_option_env: true }
}

#[test]
fn readonly_and_option_env() {
    let l = check_set_readonly(&call("set_readonly")).unwrap();
    assert_eq!(l.msg, "call to `set_readonly` with argument `false`");
    assert_eq!(l.note.unwrap(), "on Unix platforms this results in the file being world writable");
    assert!(check_set_readonly(&call("unwrap")).is_none());
    let l = check_option_env_unwrap(&call("expect")).unwrap();
    assert_eq!(l.help, "consider using the `env!` macro instead");
    assert!(check_option_env_unwrap(&call("set_readonly")).is_none());
}

#[test]
fn from_str_radix_ten() {
    let c = RadixCall {
        span: sp(0, 9),
        int_type: Some("u32".to_string()),
        name: "from_str_radix".to_string(),
        radix_is_ten: true,
        src: Operand { text: "&s".to_string(), needs_parens: false },
        borrowed_string: Some(Operand { text: "s".to_string(), needs_parens: false }),
    };
    let d = check_from_str_radix(&c).unwrap();
    assert_eq!(d.msg, "this call to `from_str_radix` can be replaced with a call to `str::parse`");
    let g = d.suggestion.unwrap();
    assert_eq!(g.replacement, "s.parse::<u32>()");
    assert!(g.applicability == Applicability::MaybeIncorrect);
    let c2 = RadixCall { borrowed_string: None, src: Operand { text: "a + b".to_string(), needs_parens: true }, ..c };
    assert_eq!(check_from_str_radix(&c2).unwrap().suggestion.unwrap().replacement, "(a + b).parse::<u32>()");
    let c3 = RadixCall { radix_is_ten: false, ..c2 };
    assert!(check_from_str_radix(&c3).is_none());
}
