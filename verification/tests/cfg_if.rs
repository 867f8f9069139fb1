use crabkit::cfg_if::{parse_cfg_if, CfgToken};
use crabkit::cfg_if::CfgToken::{Attr, BadAttr, BadItem, CloseBrace, Else, If, OpenBrace};

fn item(id: u64, is_mod: bool) -> CfgToken {
    CfgToken::Item { id, is_mod }
}

#[test]
fn cfg_if_collects_modules() {
    let toks = vec![
        If, Attr, OpenBrace, item(1, true), item(2, false), CloseBrace,
        Else, If, Attr, OpenBrace, item(3, true), CloseBrace,
        Else, OpenBrace, item(4, true), CloseBrace,
    ];
    assert_eq!(parse_cfg_if(&toks), Ok(vec![1, 3, 4]));
    assert_eq!(parse_cfg_if(&vec![]), Ok(vec![]));
}

#[test]
fn cfg_if_errors() {
    assert_eq!(parse_cfg_if(&vec![OpenBrace]), Err("Expected `if`"));
    assert_eq!(parse_cfg_if(&vec![If, BadAttr]), Err("Failed to parse attributes"));
    assert_eq!(parse_cfg_if(&vec![If, Attr, item(1, true)]), Err("Expected an opening brace"));
    assert_eq!(parse_cfg_if(&vec![If, Attr, OpenBrace, item(1, true)]), Err("Expected a closing brace"));
    assert_eq!(
        parse_cfg_if(&vec![If, Attr, OpenBrace, BadItem, CloseBrace]),
        Err("Expected item inside cfg_if block, but failed to parse it as an item")
    );
    assert_eq!(parse_cfg_if(&vec![If, Attr, OpenBrace, CloseBrace, If]), Err("Expected `else`"));
    // A trailing `else` ends the chain.
    assert_eq!(parse_cfg_if(&vec![If, Attr, OpenBrace, item(5, true), CloseBrace, Else]), Ok(vec![5]));
}
