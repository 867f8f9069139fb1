use crabkit::attrs::{builtin_attribute_status, get_attr, get_unique_attr, is_doc_hidden, is_proc_macro, Attribute, DeprecationStatus, LimitStack, PathSegment};
use crabkit::diag::{Applicability, Span};

fn sp(lo: u32) -> Span {
    Span { lo, hi: lo + 1 }
}

fn attr(path: &[&str], value: Option<&str>, lo: u32) -> Attribute {
    Attribute {
        is_normal: true,
        segments: path.iter().enumerate().map(|(i, s)| PathSegment { name: s.to_string(), span: sp(lo + i as u32) }).collect(),
        value: value.map(|v| v.to_string()),
        meta_items: None,
        span: sp(lo),
    }
}

#[test]
fn builtin_attribute_table() {
    assert!(matches!(builtin_attribute_status("msrv"), Some(DeprecationStatus::NotDeprecated)));
    assert!(matches!(builtin_attribute_status("cyclomatic_complexity"), Some(DeprecationStatus::Replaced("cognitive_complexity"))));
    assert!(builtin_attribute_status("nope").is_none());
}

#[test]
fn get_attr_reports_unknown_and_deprecated() {
    let attrs = vec![
        attr(&["clippy", "msrv"], Some("1.50"), 10),
        attr(&["clippy", "bogus"], None, 20),
        attr(&["clippy", "cyclomatic_complexity"], None, 30),
        attr(&["inline"], None, 40),
        attr(&["clippy", "msrv"], Some("1.60"), 50),
    ];
    let mut diags = Vec::new();
    let found = get_attr(&attrs, "msrv", &mut diags);
    assert_eq!(found, vec![0, 4]);
    assert_eq!(diags.len(), 2);
    assert_eq!(diags[0].msg, "usage of unknown attribute");
    assert!(diags[0].span == sp(21));
    assert_eq!(diags[1].msg, "usage of deprecated attribute");
    let s = diags[1].suggestion.as_ref().unwrap();
    assert_eq!(s.msg, "consider using");
    assert_eq!(s.replacement, "cognitive_complexity");
    assert!(s.applicability == Applicability::MachineApplicable);
}

#[test]
fn unique_attr_reports_duplicates() {
    let attrs = vec![attr(&["clippy", "msrv"], Some("1.50"), 10), attr(&["clippy", "msrv"], Some("1.60"), 50)];
    let mut diags = Vec::new();
    assert_eq!(get_unique_attr(&attrs, "msrv", &mut diags), Some(0));
    assert_eq!(diags.len(), 1);
    assert_eq!(diags[0].msg, "`msrv` is defined multiple times");
    let note = diags[0].note.as_ref().unwrap();
    assert!(note.0 == sp(10));
    assert_eq!(note.1, "first definition found here");
    let mut diags = Vec::new();
    assert_eq!(get_unique_attr(&attrs, "author", &mut diags), None);
}

#[test]
fn limit_stack_push_and_pop() {
    let mut s = LimitStack::new(25);
    assert_eq!(s.limit(), 25);
    let attrs = vec![attr(&["clippy", "cognitive_complexity"], Some("40"), 1)];
    let mut diags = Vec::new();
    s.push_attrs(&attrs, "cognitive_complexity", &mut diags);
    assert_eq!(s.limit(), 40);
    s.pop_attrs(&attrs, "cognitive_complexity", &mut diags);
    assert_eq!(s.limit(), 25);
    assert!(diags.is_empty());
    let bad = vec![attr(&["clippy", "cognitive_complexity"], Some("x"), 1), attr(&["clippy", "cognitive_complexity"], None, 5)];
    s.push_attrs(&bad, "cognitive_complexity", &mut diags);
    assert_eq!(s.limit(), 25);
    assert_eq!(diags.len(), 2);
    assert_eq!(diags[0].msg, "not a number");
    assert_eq!(diags[1].msg, "bad clippy attribute");
}

#[test]
fn proc_macro_and_doc_hidden() {
    assert!(is_proc_macro(&vec![attr(&["proc_macro_derive"], None, 1)]));
    assert!(!is_proc_macro(&vec![attr(&["inline"], None, 1)]));
    let mut d = attr(&["doc"], None, 1);
    d.meta_items = Some(vec!["inline".to_string(), "hidden".to_string()]);
    assert!(is_doc_hidden(&vec![d]));
    let mut d = attr(&["doc"], None, 1);
    d.meta_items = Some(vec!["inline".to_string()]);
    assert!(!is_doc_hidden(&vec![d]));
}

#[test]
fn unique_attr_reports_in_attribute_order() {
    let attrs = vec![
        attr(&["clippy", "msrv"], Some("1.50"), 10),
        attr(&["clippy", "msrv"], Some("1.60"), 20),
        attr(&["clippy", "bogus"], None, 30),
        attr(&["clippy", "msrv"], Some("1.70"), 40),
    ];
    let mut diags = Vec::new();
    assert_eq!(get_unique_attr(&attrs, "msrv", &mut diags), Some(0));
    assert_eq!(diags.len(), 3);
    assert_eq!(diags[0].msg, "`msrv` is defined multiple times");
    assert!(diags[0].span == sp(20));
    assert_eq!(diags[1].msg, "usage of unknown attribute");
    assert!(diags[1].span == sp(31));
    assert_eq!(diags[2].msg, "`msrv` is defined multiple times");
    assert!(diags[2].span == sp(40));
    assert!(diags[2].note.as_ref().unwrap().0 == sp(10));
}
