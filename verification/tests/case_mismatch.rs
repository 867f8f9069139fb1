use crabkit::case_mismatch::{ascii_case, check, get_case_method, is_in_case, verify_case, Arm, CaseMethod, ExprNode, Node};
use crabkit::diag::{Applicability, Span};

fn call(name: &str, size: usize) -> Node {
    Node { expr: ExprNode::MethodCall { name: name.to_string(), no_args: true, receiver_stringish: true }, size }
}

fn arm(lo: u32, text: &str) -> Arm {
    Arm { lit: Some((Span { lo, hi: lo + 1 }, text.to_string())) }
}

#[test]
fn case_methods() {
    assert!(get_case_method("to_lowercase") == Some(CaseMethod::LowerCase));
    assert!(get_case_method("to_ascii_uppercase") == Some(CaseMethod::AsciiUppercase));
    assert!(get_case_method("trim").is_none());
}

#[test]
fn arms_in_the_wrong_case() {
    let nodes = vec![call("to_ascii_lowercase", 2), Node { expr: ExprNode::Other, size: 1 }];
    let arms = vec![arm(1, "foo"), Arm { lit: None }, arm(5, "Bar"), arm(9, "BAZ")];
    let d = check(true, &nodes, &arms).unwrap();
    assert!(d.span == Span { lo: 5, hi: 6 });
    assert_eq!(d.msg, "this `match` arm has a differing case than its expression");
    let s = d.suggestion.unwrap();
    assert_eq!(s.msg, "consider changing the case of this arm to respect `to_ascii_lowercase`");
    assert_eq!(s.replacement, "\"bar\"");
    assert!(s.applicability == Applicability::MachineApplicable);
    assert!(check(false, &nodes, &arms).is_none());
    assert!(check(true, &vec![Node { expr: ExprNode::Other, size: 1 }], &arms).is_none());
    assert!(check(true, &nodes, &vec![arm(1, "ok")]).is_none());
}

#[test]
fn unicode_case_checks() {
    assert!(is_in_case(CaseMethod::LowerCase, "straße"));
    assert!(!is_in_case(CaseMethod::LowerCase, "Ärger"));
    assert!(is_in_case(CaseMethod::UpperCase, "ÄRGER"));
    let nodes = vec![call("to_uppercase", 1)];
    let d = check(true, &nodes, &vec![arm(3, "Ärger")]).unwrap();
    assert_eq!(d.suggestion.unwrap().replacement, "\"ÄRGER\"");
    assert_eq!(ascii_case("AbC-ä", false), "abc-ä");
    assert_eq!(ascii_case("AbC-ä", true), "ABC-ä");
    let found = verify_case(CaseMethod::AsciiUppercase, &vec![arm(1, "OK"), arm(2, "no")]).unwrap();
    assert_eq!(found.1, "no");
}

#[test]
fn walk_keeps_the_last_conversion() {
    // The walk does not enter a conversion, and later ones win.
    let nodes = vec![
        Node { expr: ExprNode::Other, size: 4 },
        call("to_lowercase", 2),
        call("to_uppercase", 1),
        call("to_ascii_uppercase", 1),
    ];
    let d = check(true, &nodes, &vec![arm(1, "abc")]).unwrap();
    assert_eq!(d.suggestion.unwrap().msg, "consider changing the case of this arm to respect `to_ascii_uppercase`");
}
