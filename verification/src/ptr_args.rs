//! The rewriting of the uses of a parameter whose type is changed from an
//! owned container to a borrowed one (`&Vec<T>` to `&[T]`, say): each call
//! of one of the given methods on the parameter is replaced by its receiver
//! and a suffix, and a call of `capacity` makes the change impossible.
//!
//! The function body reaches the rewriting as its expressions in pre-order,
//! each with the size of its subtree.
use vstd::prelude::*;
use crate::diag::Span;
use crate::text::str_eq;

verus! {

/// An expression of the body.
pub enum BodyExpr {
    /// `recv.name(args..)`: `on_param` says whether `recv` is a path to the
    /// parameter, `recv_text` is its source text.
    MethodCall { span: Span, name: String, no_args: bool, on_param: bool, recv_text: String },
    /// Anything else.
    Other,
}

/// An expression with the number of expressions of its subtree (itself
/// included).
pub struct BodyNode {
    pub expr: BodyExpr,
    pub size: usize,
}

/// What the walk does at a node: stop (`None`), or go on from the given
/// place with the replacement found there, if any.
pub open spec fn node_step(nodes: Seq<BodyNode>, i: int, replace: Seq<(String, String)>) -> Option<
    (int, Option<(Span, Seq<char>)>),
> {
    match nodes[i].expr {
        BodyExpr::MethodCall { span, name, no_args, on_param, recv_text } => if no_args && on_param {
            if name@ == "capacity"@ {
                None
            } else {
                match first_replacement(replace, name@, 0) {
                    Some(k) => Some(
                        (
                            i + if nodes[i].size > 1 {
                                nodes[i].size as int
                            } else {
                                1
                            },
                            Some((span, recv_text@ + replace[k].1@)),
                        ),
                    ),
                    None => Some((i + 1, None)),
                }
            }
        } else {
            Some((i + 1, None))
        },
        BodyExpr::Other => Some((i + 1, None)),
    }
}

/// The first replacement from `k` on whose method is `name`.
pub open spec fn first_replacement(replace: Seq<(String, String)>, name: Seq<char>, k: int) -> Option<int>
    decreases replace.len() - k,
{
    if k < 0 || k >= replace.len() {
        None
    } else if replace[k].0@ == name {
        Some(k)
    } else {
        first_replacement(replace, name, k + 1)
    }
}

/// The replacements that the walk of `nodes[i..]` finds, or `None` if it
/// meets a call of `capacity` on the parameter. The walk does not enter
/// the subtree of a replaced call.
pub open spec fn walk_spans(nodes: Seq<BodyNode>, i: int, replace: Seq<(String, String)>) -> Option<
    Seq<(Span, Seq<char>)>,
>
    decreases nodes.len() - i,
{
    if i < 0 || i >= nodes.len() {
        Some(Seq::empty())
    } else {
        match node_step(nodes, i, replace) {
            None => None,
            Some((next, found)) => {
                let rest = if next >= nodes.len() {
                    Some(Seq::empty())
                } else {
                    walk_spans(nodes, next, replace)
                };
                match (found, rest) {
                    (_, None) => None,
                    (Some(f), Some(r)) => Some(seq![f] + r),
                    (None, Some(r)) => Some(r),
                }
            },
        }
    }
}

fn find_replacement(replace: &Vec<(String, String)>, name: &str) -> (r: Option<usize>)
    ensures
        match r {
            Some(k) => first_replacement(replace@, name@, 0) == Some(k as int) && k < replace@.len(),
            None => first_replacement(replace@, name@, 0) is None,
        },
{
    let mut k: usize = 0;
    while k < replace.len()
        invariant
            k <= replace.len(),
            first_replacement(replace@, name@, 0) == first_replacement(replace@, name@, k as int),
        decreases replace.len() - k,
    {
        if str_eq(replace[k].0.as_str(), name) {
            return Some(k);
        }
        k = k + 1;
    }
    None
}

/// The values of a list of replacements.
pub open spec fn spans_view(v: Seq<(Span, String)>) -> Seq<(Span, Seq<char>)> {
    v.map_values(|p: (Span, String)| (p.0, p.1@))
}

/// The replacements of the calls of `replace`'s methods (each with the
/// suffix that follows the receiver) on the parameter, or `None` if the body
/// calls `capacity` on it.
pub fn extract_clone_suggestions(nodes: &Vec<BodyNode>, replace: &Vec<(String, String)>) -> (r: Option<
    Vec<(Span, String)>,
>)
    ensures
        match r {
            Some(v) => walk_spans(nodes@, 0, replace@) == Some(spans_view(v@)),
            None => walk_spans(nodes@, 0, replace@) is None,
        },
{
    let mut spans: Vec<(Span, String)> = Vec::new();
    let mut i: usize = 0;
    assert(spans_view(spans@) =~= Seq::<(Span, Seq<char>)>::empty());
    while i < nodes.len()
        invariant
            walk_spans(nodes@, 0, replace@) == match walk_spans(nodes@, i as int, replace@) {
                Some(rest) => Some(spans_view(spans@) + rest),
                None => None::<Seq<(Span, Seq<char>)>>,
            },
        decreases nodes.len() - i,
    {
        let mut next = i + 1;
        match &nodes[i].expr {
            BodyExpr::MethodCall { span, name, no_args, on_param, recv_text } => {
                if *no_args && *on_param {
                    if str_eq(name.as_str(), "capacity") {
                        return None;
                    }
                    match find_replacement(replace, name.as_str()) {
                        Some(k) => {
                            let mut text = String::from_str(recv_text.as_str());
                            text.append(replace[k].1.as_str());
                            let ghost prev = spans@;
                            spans.push((*span, text));
                            assert(spans_view(spans@) =~= spans_view(prev).push((*span, text@)));
                            let step = if nodes[i].size > 1 {
                                nodes[i].size
                            } else {
                                1
                            };
                            if step >= nodes.len() - i {
                                proof {
                                    assert(spans_view(prev) + (seq![(*span, text@)] + Seq::<(Span, Seq<char>)>::empty())
                                        =~= spans_view(spans@) + Seq::<(Span, Seq<char>)>::empty());
                                }
                                i = nodes.len();
                                assert(walk_spans(nodes@, i as int, replace@) == Some(Seq::<(Span, Seq<char>)>::empty()));
                                continue;
                            }
                            next = i + step;
                            proof {
                                match walk_spans(nodes@, next as int, replace@) {
                                    Some(rest) => {
                                        assert(spans_view(prev) + (seq![(*span, text@)] + rest) =~= spans_view(
                                            spans@,
                                        ) + rest);
                                    },
                                    None => {},
                                }
                            }
                        },
                        None => {},
                    }
                }
            },
            BodyExpr::Other => {},
        }
        proof {
            if next == i + 1 && next >= nodes.len() {
                assert(spans_view(spans@) + Seq::<(Span, Seq<char>)>::empty() =~= spans_view(spans@));
            }
        }
        i = next;
    }
    assert(spans_view(spans@) + Seq::<(Span, Seq<char>)>::empty() =~= spans_view(spans@));
    Some(spans)
}

/// The replacements in the body of a function for its parameter: none when
/// there is no body (`body` is `None`) or the parameter's pattern is not a
/// plain binding (`binds` false).
pub fn get_spans(body: Option<&Vec<BodyNode>>, binds: bool, replace: &Vec<(String, String)>) -> (r: Option<
    Vec<(Span, String)>,
>)
    ensures
        match body {
            Some(nodes) => if binds {
                match r {
                    Some(v) => walk_spans(nodes@, 0, replace@) == Some(spans_view(v@)),
                    None => walk_spans(nodes@, 0, replace@) is None,
                }
            } else {
                r matches Some(v) && v@.len() == 0
            },
            None => r matches Some(v) && v@.len() == 0,
        },
{
    match body {
        Some(nodes) => if binds {
            extract_clone_suggestions(nodes, replace)
        } else {
            Some(Vec::new())
        },
        None => Some(Vec::new()),
    }
}

} // verus!
