//! The formatter's reading of a `cfg_if!` invocation: a chain of
//! `if #[cfg(..)] { items } else if #[cfg(..)] { items } else { items }`,
//! from which the module items are collected, so that modules declared
//! inside can be found.
//!
//! The tokens of the invocation reach the parser as the units that the
//! language parser would hand out: keywords, braces, attributes and items.
use vstd::prelude::*;

verus! {

/// A unit of the invocation's tokens.
#[derive(Clone, Copy, PartialEq, Eq, Structural)]
pub enum CfgToken {
    If,
    Else,
    /// An attribute that parses.
    Attr,
    /// Something where an attribute should be, that does not parse.
    BadAttr,
    OpenBrace,
    CloseBrace,
    /// An item; `id` names it, and `is_mod` says whether it is a module.
    Item { id: u64, is_mod: bool },
    /// Something where an item should be, that does not parse as one.
    BadItem,
}

/// The place of the first token from `k` on that is not an item.
pub open spec fn block_end(toks: Seq<CfgToken>, k: int) -> int
    decreases toks.len() - k,
{
    if k >= toks.len() {
        toks.len() as int
    } else if toks[k] is Item {
        block_end(toks, k + 1)
    } else {
        k
    }
}

/// The modules among the items `toks[k..e]`.
pub open spec fn block_mods(toks: Seq<CfgToken>, k: int, e: int) -> Seq<u64>
    decreases e - k,
{
    if e <= k {
        Seq::empty()
    } else {
        let prev = block_mods(toks, k, e - 1);
        match toks[e - 1] {
            CfgToken::Item { id, is_mod } => if is_mod {
                prev.push(id)
            } else {
                prev
            },
            _ => prev,
        }
    }
}

/// The modules of the chain that starts at `i` (after an `else`, where
/// `process_if` says whether an `if` follows), or the first error.
pub open spec fn parse_chain(toks: Seq<CfgToken>, i: int, process_if: bool) -> Result<
    Seq<u64>,
    Seq<char>,
>
    decreases toks.len() - i,
{
    if i < 0 || i >= toks.len() {
        Ok(Seq::empty())
    } else if process_if && toks[i] != CfgToken::If {
        Err("Expected `if`"@)
    } else if process_if && (i + 1 >= toks.len() || toks[i + 1] != CfgToken::Attr) {
        Err("Failed to parse attributes"@)
    } else {
        let o = if process_if {
            i + 2
        } else {
            i
        };
        if o >= toks.len() || toks[o] != CfgToken::OpenBrace {
            Err("Expected an opening brace"@)
        } else {
            let e = block_end(toks, o + 1);
            proof {
                lemma_block_end_bounds(toks, o + 1);
            }
            if e >= toks.len() {
                Err("Expected a closing brace"@)
            } else if toks[e] != CfgToken::CloseBrace {
                Err("Expected item inside cfg_if block, but failed to parse it as an item"@)
            } else if e + 1 >= toks.len() {
                Ok(block_mods(toks, o + 1, e))
            } else if toks[e + 1] != CfgToken::Else {
                Err("Expected `else`"@)
            } else {
                match parse_chain(toks, e + 2, e + 2 < toks.len() && toks[e + 2] == CfgToken::If) {
                    Ok(rest) => Ok(block_mods(toks, o + 1, e) + rest),
                    Err(m) => Err(m),
                }
            }
        }
    }
}

/// `r` with `acc` put in front of its modules.
pub open spec fn prepend(acc: Seq<u64>, r: Result<Seq<u64>, Seq<char>>) -> Result<Seq<u64>, Seq<char>> {
    match r {
        Ok(rest) => Ok(acc + rest),
        Err(m) => Err(m),
    }
}

pub proof fn lemma_block_end_bounds(toks: Seq<CfgToken>, k: int)
    requires
        0 <= k,
    ensures
        k <= block_end(toks, k) || k > toks.len(),
        block_end(toks, k) <= toks.len(),
        forall|j: int| k <= j < block_end(toks, k) ==> #[trigger] toks[j] is Item,
        block_end(toks, k) < toks.len() ==> !(toks[block_end(toks, k)] is Item),
    decreases toks.len() - k,
{
    if k < toks.len() && toks[k] is Item {
        lemma_block_end_bounds(toks, k + 1);
    }
}

/// Reads a `cfg_if!` invocation: the ids of the modules it declares, in
/// order, or the message of the first error.
pub fn parse_cfg_if(toks: &Vec<CfgToken>) -> (r: Result<Vec<u64>, &'static str>)
    ensures
        match r {
            Ok(items) => parse_chain(toks@, 0, true) == Ok::<Seq<u64>, Seq<char>>(items@),
            Err(m) => parse_chain(toks@, 0, true) == Err::<Seq<u64>, Seq<char>>(m@),
        },
{
    let n = toks.len();
    let mut items: Vec<u64> = Vec::new();
    let mut process_if = true;
    let mut i: usize = 0;
    while i < n
        invariant
            n == toks.len(),
            parse_chain(toks@, 0, true) == prepend(items@, parse_chain(toks@, i as int, process_if)),
        decreases n - i,
    {
        if process_if {
            if toks[i] != CfgToken::If {
                return Err("Expected `if`");
            }
            if i + 1 >= n || toks[i + 1] != CfgToken::Attr {
                return Err("Failed to parse attributes");
            }
        }
        let o = if process_if {
            i + 2
        } else {
            i
        };
        if o >= n || toks[o] != CfgToken::OpenBrace {
            return Err("Expected an opening brace");
        }
        let ghost start = items@;
        let mut k = o + 1;
        proof {
            lemma_block_end_bounds(toks@, k as int);
        }
        while k < n && toks[k] != CfgToken::CloseBrace
            invariant
                n == toks.len(),
                i < n,
                parse_chain(toks@, 0, true) == prepend(start, parse_chain(toks@, i as int, process_if)),
                o == (if process_if {
                    i + 2
                } else {
                    i as int
                }),
                process_if ==> toks@[i as int] == CfgToken::If && i + 1 < n && toks@[i + 1]
                    == CfgToken::Attr,
                o < n,
                toks@[o as int] == CfgToken::OpenBrace,
                o + 1 <= k <= n,
                k <= block_end(toks@, o + 1),
                block_end(toks@, o + 1) <= n,
                forall|j: int| o + 1 <= j < block_end(toks@, o + 1) ==> #[trigger] toks@[j] is Item,
                block_end(toks@, o + 1) < n ==> !(toks@[block_end(toks@, o + 1)] is Item),
                items@ == start + block_mods(toks@, o + 1, k as int),
            decreases n - k,
        {
            match toks[k] {
                CfgToken::Item { id, is_mod } => {
                    if is_mod {
                        items.push(id);
                    }
                },
                _ => {
                    return Err(
                        "Expected item inside cfg_if block, but failed to parse it as an item",
                    );
                },
            }
            k = k + 1;
        }
        if k >= n {
            return Err("Expected a closing brace");
        }
        assert(k == block_end(toks@, o + 1));
        if k + 1 >= n {
            assert(items@ == start + block_mods(toks@, o + 1, k as int));
            return Ok(items);
        }
        if toks[k + 1] != CfgToken::Else {
            return Err("Expected `else`");
        }
        process_if = k + 2 < n && toks[k + 2] == CfgToken::If;
        proof {
            match parse_chain(toks@, (k + 2) as int, process_if) {
                Ok(rest) => {
                    assert(items@ + rest =~= start + (block_mods(toks@, o + 1, k as int) + rest));
                },
                Err(_) => {},
            }
        }
        i = k + 2;
    }
    assert(items@ + Seq::<u64>::empty() =~= items@);
    Ok(items)
}

/// The ids of the module items among `toks`, in order.
pub open spec fn mod_ids(toks: Seq<CfgToken>) -> Seq<u64>
    decreases toks.len(),
{
    if toks.len() == 0 {
        Seq::empty()
    } else {
        let rest = mod_ids(toks.drop_first());
        match toks[0] {
            CfgToken::Item { id, is_mod: true } => seq![id] + rest,
            _ => rest,
        }
    }
}

/// The modules of two token lists put together are those of the first, then
/// those of the second.
pub proof fn lemma_mod_ids_append(a: Seq<CfgToken>, b: Seq<CfgToken>)
    ensures
        mod_ids(a + b) == mod_ids(a) + mod_ids(b),
    decreases a.len(),
{
    if a.len() == 0 {
        assert(a + b =~= b);
    } else {
        assert((a + b).drop_first() =~= a.drop_first() + b);
        lemma_mod_ids_append(a.drop_first(), b);
        assert(mod_ids(a) + mod_ids(b) =~= match a[0] {
            CfgToken::Item { id, is_mod: true } => seq![id] + (mod_ids(a.drop_first()) + mod_ids(b)),
            _ => mod_ids(a.drop_first()) + mod_ids(b),
        });
    }
}

proof fn lemma_mod_ids_one(t: CfgToken)
    ensures
        mod_ids(seq![t]) == match t {
            CfgToken::Item { id, is_mod: true } => seq![id],
            _ => Seq::<u64>::empty(),
        },
{
    assert(seq![t].drop_first() =~= Seq::<CfgToken>::empty());
    assert(seq![t][0] == t);
    assert(mod_ids(Seq::<CfgToken>::empty()) == Seq::<u64>::empty());
    match t {
        CfgToken::Item { id, is_mod: true } => {
            assert(seq![id] + Seq::<u64>::empty() =~= seq![id]);
        },
        _ => {},
    }
}

/// The modules collected from the items `toks[k..e]` are the module items
/// there, in order.
pub proof fn lemma_block_mods_are_mod_ids(toks: Seq<CfgToken>, k: int, e: int)
    requires
        0 <= k <= e <= toks.len(),
    ensures
        block_mods(toks, k, e) == mod_ids(toks.subrange(k, e)),
    decreases e - k,
{
    if e == k {
        assert(toks.subrange(k, e) =~= Seq::<CfgToken>::empty());
    } else {
        lemma_block_mods_are_mod_ids(toks, k, e - 1);
        assert(toks.subrange(k, e) =~= toks.subrange(k, e - 1) + seq![toks[e - 1]]);
        lemma_mod_ids_append(toks.subrange(k, e - 1), seq![toks[e - 1]]);
        lemma_mod_ids_one(toks[e - 1]);
        assert(block_mods(toks, k, e) =~= mod_ids(toks.subrange(k, e - 1)) + mod_ids(seq![toks[e - 1]]));
    }
}

/// A token that is not an item declares no module.
proof fn lemma_mod_ids_no_item(toks: Seq<CfgToken>, k: int)
    requires
        0 <= k < toks.len(),
        !(toks[k] is Item),
    ensures
        mod_ids(toks.subrange(k, k + 1)) == Seq::<u64>::empty(),
{
    assert(toks.subrange(k, k + 1) =~= seq![toks[k]]);
    lemma_mod_ids_one(toks[k]);
}

/// Nothing of a well-formed chain is lost or added: the modules read from
/// the chain that starts at `i` are exactly the module items among the
/// tokens from `i` on, in order; every module of every branch is found.
pub proof fn lemma_chain_finds_every_module(toks: Seq<CfgToken>, i: int, process_if: bool)
    requires
        0 <= i <= toks.len(),
    ensures
        parse_chain(toks, i, process_if) matches Ok(ms) ==> ms == mod_ids(toks.subrange(i, toks.len() as int)),
    decreases toks.len() - i,
{
    let n = toks.len() as int;
    if i >= n {
        assert(toks.subrange(i, n) =~= Seq::<CfgToken>::empty());
    } else if process_if && toks[i] != CfgToken::If {
    } else if process_if && (i + 1 >= n || toks[i + 1] != CfgToken::Attr) {
    } else {
        let o = if process_if {
            i + 2
        } else {
            i
        };
        if o >= n || toks[o] != CfgToken::OpenBrace {
        } else {
            let e = block_end(toks, o + 1);
            lemma_block_end_bounds(toks, o + 1);
            if e >= n {
            } else if toks[e] != CfgToken::CloseBrace {
            } else {
                // The tokens up to the block: `if`, the attribute and the
                // brace, none of which is an item.
                assert(mod_ids(toks.subrange(i, o + 1)) == Seq::<u64>::empty()) by {
                    if process_if {
                        lemma_mod_ids_no_item(toks, i);
                        lemma_mod_ids_no_item(toks, i + 1);
                        lemma_mod_ids_no_item(toks, i + 2);
                        assert(toks.subrange(i, o + 1) =~= toks.subrange(i, i + 1) + toks.subrange(
                            i + 1,
                            i + 2,
                        ) + toks.subrange(i + 2, i + 3));
                        lemma_mod_ids_append(toks.subrange(i, i + 1), toks.subrange(i + 1, i + 2));
                        lemma_mod_ids_append(
                            toks.subrange(i, i + 1) + toks.subrange(i + 1, i + 2),
                            toks.subrange(i + 2, i + 3),
                        );
                    } else {
                        lemma_mod_ids_no_item(toks, i);
                    }
                }
                lemma_block_mods_are_mod_ids(toks, o + 1, e);
                lemma_mod_ids_no_item(toks, e);
                let head = toks.subrange(i, o + 1) + toks.subrange(o + 1, e) + toks.subrange(e, e + 1);
                lemma_mod_ids_append(toks.subrange(i, o + 1), toks.subrange(o + 1, e));
                lemma_mod_ids_append(toks.subrange(i, o + 1) + toks.subrange(o + 1, e), toks.subrange(e, e + 1));
                assert(mod_ids(head) =~= block_mods(toks, o + 1, e));
                if e + 1 >= n {
                    assert(toks.subrange(i, n) =~= head);
                } else if toks[e + 1] != CfgToken::Else {
                } else {
                    let p = e + 2 < n && toks[e + 2] == CfgToken::If;
                    lemma_chain_finds_every_module(toks, e + 2, p);
                    lemma_mod_ids_no_item(toks, e + 1);
                    assert(toks.subrange(i, n) =~= head + toks.subrange(e + 1, e + 2) + toks.subrange(e + 2, n));
                    lemma_mod_ids_append(head, toks.subrange(e + 1, e + 2));
                    lemma_mod_ids_append(head + toks.subrange(e + 1, e + 2), toks.subrange(e + 2, n));
                    match parse_chain(toks, e + 2, p) {
                        Ok(rest) => {
                            assert(mod_ids(toks.subrange(i, n)) =~= block_mods(toks, o + 1, e) + rest);
                        },
                        Err(_) => {},
                    }
                }
            }
        }
    }
}

/// Reading a `cfg_if!` invocation that succeeds gives every module item of
/// its tokens, in order, and nothing else.
pub proof fn lemma_parse_finds_every_module(toks: Seq<CfgToken>)
    ensures
        parse_chain(toks, 0, true) matches Ok(ms) ==> ms == mod_ids(toks),
{
    lemma_chain_finds_every_module(toks, 0, true);
    assert(toks.subrange(0, toks.len() as int) =~= toks);
}

} // verus!
