use crabkit::assert_macro::{assertion_failed_text, expand_assert, failure_message, parse_assert, AssertError, AssertNote, AssertToken, Expansion, PanicPath};
use crabkit::diag::Span;

fn sp(lo: u32, hi: u32) -> Span {
    Span { lo, hi }
}

fn cond() -> AssertToken {
    AssertToken::Expr { span: sp(0, 4), printed: "a == \"b\"".to_string() }
}

#[test]
fn assert_without_message() {
    let (e, notes, err) = expand_assert(sp(0, 10), vec![cond()], false, false);
    assert!(notes.is_empty() && err.is_none());
    match e {
        Expansion::PanicWithText { text, .. } => assert_eq!(text, "assertion failed: a == \\\"b\\\""),
        _ => panic!("unexpected expansion"),
    }
    assert_eq!(failure_message("x\ny"), "assertion failed: x\\ny");
    assert_eq!(assertion_failed_text("z"), "assertion failed: z");
}

#[test]
fn assert_with_message_and_missing_comma() {
    let toks = vec![
        cond(),
        AssertToken::Str { span: sp(6, 11), text: "\"oops\"".to_string() },
    ];
    let (e, notes, err) = expand_assert(sp(0, 12), toks, true, false);
    assert!(err.is_none());
    assert!(notes == vec![AssertNote::MissingComma { span: sp(6, 11), comma: sp(4, 4) }]);
    match e {
        Expansion::PanicWithMessage { path, message, .. } => {
            assert!(path == PanicPath::Panic2021);
            assert_eq!(message.len(), 1);
        }
        _ => panic!("unexpected expansion"),
    }
}

#[test]
fn assert_semicolon_and_errors() {
    let toks = vec![cond(), AssertToken::Semi { span: sp(4, 5) }, AssertToken::Comma { span: sp(5, 6) }, AssertToken::Other { span: sp(6, 7), text: "x".to_string() }];
    let (r, notes) = parse_assert(sp(0, 8), toks);
    assert!(notes == vec![AssertNote::SemicolonAfterCondition { span: sp(0, 8), token: sp(4, 5) }]);
    let a = r.ok().unwrap();
    assert_eq!(a.custom_message.unwrap().len(), 1);
    let (r, _) = parse_assert(sp(0, 1), vec![]);
    assert!(r.err().unwrap() == AssertError::RequiresBoolean { span: sp(0, 1) });
    let (r, _) = parse_assert(sp(0, 1), vec![AssertToken::Comma { span: sp(3, 4) }]);
    assert!(r.err().unwrap() == AssertError::ExpectedExpression { span: sp(3, 4) });
    let (r, _) = parse_assert(sp(0, 1), vec![cond(), AssertToken::Other { span: sp(5, 6), text: "+".to_string() }]);
    assert!(r.err().unwrap() == AssertError::Unexpected { span: sp(5, 6) });
    let (e, _, err) = expand_assert(sp(0, 1), vec![], false, false);
    assert!(matches!(e, Expansion::Dummy) && err.is_some());
    let (e, _, _) = expand_assert(sp(0, 1), vec![cond()], false, true);
    assert!(matches!(e, Expansion::Captured { path: PanicPath::Panic, .. }));
}
