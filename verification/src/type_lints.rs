//! Lints that decide on the types of expressions: maps with zero-sized
//! values, `mem::forget` of a `Drop` type, casts of enum constructors and of
//! functions to numbers, `step_by(0)`, and transmutes that a pointer cast
//! could express.
//!
//! What the compiler knows of the types (their kinds, layouts and printed
//! forms) reaches these checks as plain values.
use vstd::prelude::*;
use crate::diag::{Applicability, DiagModel, Diagnostic, Span, Suggestion, plain_diag, make_plain};
use crate::text::concat3;

verus! {

/// The item two levels above a type: an `impl` block (of a trait or not),
/// or another item.
#[derive(Clone, Copy, PartialEq, Eq, Structural)]
pub enum GrandparentItem {
    Impl { of_trait: bool },
    Other,
}

/// Whether a type sits in an implementation of a trait.
pub fn in_trait_impl(grandparent: Option<GrandparentItem>) -> (r: bool)
    ensures
        r == (grandparent == Some(GrandparentItem::Impl { of_trait: true })),
{
    match grandparent {
        Some(GrandparentItem::Impl { of_trait }) => of_trait,
        _ => false,
    }
}

/// The type of a syntactic type: the one the type-check results record,
/// when they belong to the same owner and record one; else the type that
/// lowering the syntax gives.
pub fn ty_from_hir_ty(results: Option<(u64, Option<u64>)>, hir_owner: u64, lowered: u64) -> (r: u64)
    ensures
        r == match results {
            Some((owner, Some(t))) => if owner == hir_owner {
                t
            } else {
                lowered
            },
            _ => lowered,
        },
{
    match results {
        Some((owner, Some(t))) => if owner == hir_owner {
            t
        } else {
            lowered
        },
        _ => lowered,
    }
}

/// What `zero_sized_map_values` needs to know of a type in the source.
pub struct MapTypeFacts {
    pub span: Span,
    pub from_expansion: bool,
    /// The item two levels above it.
    pub grandparent: Option<GrandparentItem>,
    /// The type is a `HashMap` or a `BTreeMap`.
    pub is_map: bool,
    /// Its value type has escaping bound variables.
    pub value_escaping: bool,
    /// Its value type can be normalized.
    pub value_normalizable: bool,
    /// The layout of the value type, when it can be computed: whether it is
    /// zero-sized.
    pub value_zst: Option<bool>,
}

/// A report with a help message.
pub struct HelpDiag {
    pub span: Span,
    pub msg: String,
    pub help: String,
}

/// Whether the lint reports the type.
pub open spec fn zero_sized_map_spec(t: MapTypeFacts) -> bool {
    &&& !t.from_expansion
    &&& t.grandparent != Some(GrandparentItem::Impl { of_trait: true })
    &&& t.is_map
    &&& !t.value_escaping
    &&& t.value_normalizable
    &&& t.value_zst == Some(true)
}

/// Checks a type in the source for a map whose values take no space.
pub fn check_ty(t: &MapTypeFacts) -> (r: Option<HelpDiag>)
    ensures
        r is Some <==> zero_sized_map_spec(*t),
        r matches Some(d) ==> d.span == t.span && d.msg@ == "map with zero-sized value type"@
            && d.help@ == "consider using a set instead"@,
{
    if !t.from_expansion && !in_trait_impl(t.grandparent) && t.is_map && !t.value_escaping
        && t.value_normalizable && t.value_zst == Some(true) {
        Some(
            HelpDiag {
                span: t.span,
                msg: String::from_str("map with zero-sized value type"),
                help: String::from_str("consider using a set instead"),
            },
        )
    } else {
        None
    }
}

/// Checks a call at `span`: `calls_forget` says whether it calls
/// `mem::forget`, `arg_has_drop` whether its first argument's type is an
/// ADT with a destructor.
pub fn check_mem_forget(span: Span, calls_forget: bool, arg_has_drop: bool) -> (r: Option<Diagnostic>)
    ensures
        r is Some <==> (calls_forget && arg_has_drop),
        r matches Some(d) ==> d@ == plain_diag(span, "usage of `mem::forget` on `Drop` type"@),
{
    if calls_forget && arg_has_drop {
        Some(make_plain(span, String::from_str("usage of `mem::forget` on `Drop` type")))
    } else {
        None
    }
}

/// What the type of a cast operand is.
#[derive(Clone, Copy, PartialEq, Eq, Structural)]
pub enum CastTy {
    /// A function item.
    FnDef,
    /// A function pointer.
    FnPtr,
    /// Anything else.
    Other,
}

/// Checks a cast at `span` from a value of type `from`, where
/// `ctor_path` says whether the operand is a path to an enum variant's
/// tuple constructor.
pub fn check_cast_enum_constructor(span: Span, from: CastTy, ctor_path: bool) -> (r: Option<Diagnostic>)
    ensures
        r is Some <==> (from == CastTy::FnDef && ctor_path),
        r matches Some(d) ==> d@ == plain_diag(span, "cast of an enum tuple constructor to an integer"@),
{
    if from == CastTy::FnDef && ctor_path {
        Some(make_plain(span, String::from_str("cast of an enum tuple constructor to an integer")))
    } else {
        None
    }
}

/// The report on a cast of a function to a number: perhaps the function was
/// meant to be called. `from_app` is the applicability that taking
/// `from_text` leaves, starting from maybe-incorrect.
pub open spec fn fn_cast_spec(
    span: Span,
    from: CastTy,
    to: CastTy,
    from_text: Seq<char>,
    to_text: Seq<char>,
    from_app: Applicability,
) -> Option<DiagModel> {
    if to == CastTy::FnDef || to == CastTy::FnPtr {
        None
    } else if from == CastTy::FnDef || from == CastTy::FnPtr {
        Some(
            DiagModel {
                span,
                msg: "casting function pointer `"@ + from_text + "` to `"@ + to_text + "`"@,
                note: None,
                suggestion: Some(
                    (span, "did you mean to invoke the function?"@, from_text + "() as "@ + to_text, from_app),
                ),
            },
        )
    } else {
        None
    }
}

/// Checks a cast at `span` of `from_text` (of type `from`) to the type
/// `to_text` (of kind `to`); `from_app` is the applicability that taking
/// `from_text` leaves, starting from maybe-incorrect.
pub fn check_fn_to_numeric_cast_any(
    span: Span,
    from: CastTy,
    to: CastTy,
    from_text: &str,
    to_text: &str,
    from_app: Applicability,
) -> (r: Option<Diagnostic>)
    ensures
        match r {
            Some(d) => fn_cast_spec(span, from, to, from_text@, to_text@, from_app) == Some(d@),
            None => fn_cast_spec(span, from, to, from_text@, to_text@, from_app) is None,
        },
{
    match to {
        CastTy::FnDef | CastTy::FnPtr => {
            return None;
        },
        _ => {},
    }
    match from {
        CastTy::FnDef | CastTy::FnPtr => {
            let mut msg = concat3("casting function pointer `", from_text, "` to `");
            msg.append(to_text);
            msg.append("`");
            Some(
                Diagnostic {
                    span,
                    msg,
                    note: None,
                    suggestion: Some(
                        Suggestion {
                            span,
                            msg: String::from_str("did you mean to invoke the function?"),
                            replacement: concat3(from_text, "() as ", to_text),
                            applicability: from_app,
                        },
                    ),
                },
            )
        },
        _ => None,
    }
}

/// Checks `iter.step_by(arg)` at `span`: `is_iterator_method` says whether
/// it calls `Iterator::step_by`, `arg_is_zero` whether the argument is the
/// constant zero.
pub fn check_step_by(span: Span, is_iterator_method: bool, arg_is_zero: bool) -> (r: Option<Diagnostic>)
    ensures
        r is Some <==> (is_iterator_method && arg_is_zero),
        r matches Some(d) ==> d@ == plain_diag(span, "`Iterator::step_by(0)` will panic at runtime"@),
{
    if is_iterator_method && arg_is_zero {
        Some(make_plain(span, String::from_str("`Iterator::step_by(0)` will panic at runtime")))
    } else {
        None
    }
}

/// The pointer cast that can replace a transmute.
#[derive(Clone, Copy, PartialEq, Eq, Structural)]
pub enum CastKind {
    PtrPtrCast,
    AddrPtrCast,
    ArrayPtrCast,
    FnPtrPtrCast,
    FnPtrAddrCast,
    PtrAddrCast,
    /// Any other cast.
    Other,
}

/// A `transmute` of `arg` from `from` to `to`.
pub struct TransmuteFacts {
    pub span: Span,
    /// The cast that can replace it, if any.
    pub cast: Option<CastKind>,
    /// The argument was adjusted (a reference coerced to a pointer).
    pub from_adjusted: bool,
    pub from_ty: String,
    pub to_ty: String,
    /// How `arg as to` prints.
    pub arg_as_to: String,
    /// How `arg as from` prints.
    pub arg_as_from: String,
    /// The applicability that printing `arg` leaves, starting from
    /// machine-applicable.
    pub app: Applicability,
}

/// The replacement of a transmute by a pointer cast, if there is one.
pub open spec fn transmute_sugg(t: TransmuteFacts) -> Option<Seq<char>> {
    match t.cast {
        Some(CastKind::PtrPtrCast) | Some(CastKind::AddrPtrCast) | Some(CastKind::ArrayPtrCast)
        | Some(CastKind::FnPtrPtrCast) | Some(CastKind::FnPtrAddrCast) => Some(t.arg_as_to@),
        Some(CastKind::PtrAddrCast) => if !t.from_adjusted {
            Some(t.arg_as_to@)
        } else {
            Some(t.arg_as_from@ + " as "@ + t.to_ty@)
        },
        _ => None,
    }
}

/// Checks a transmute that a pointer cast could express; the answer says
/// whether it was reported.
pub fn check_transmute(t: &TransmuteFacts) -> (r: Option<Diagnostic>)
    ensures
        r is Some <==> transmute_sugg(*t) is Some,
        r matches Some(d) ==> transmute_sugg(*t) matches Some(s) && d@ == (DiagModel {
            span: t.span,
            msg: "transmute from `"@ + t.from_ty@ + "` to `"@ + t.to_ty@
                + "` which could be expressed as a pointer cast instead"@,
            note: None,
            suggestion: Some((t.span, "try"@, s, t.app)),
        }),
{
    let sugg = match t.cast {
        Some(CastKind::PtrPtrCast) | Some(CastKind::AddrPtrCast) | Some(CastKind::ArrayPtrCast)
        | Some(CastKind::FnPtrPtrCast) | Some(CastKind::FnPtrAddrCast) => String::from_str(t.arg_as_to.as_str()),
        Some(CastKind::PtrAddrCast) => if !t.from_adjusted {
            String::from_str(t.arg_as_to.as_str())
        } else {
            concat3(t.arg_as_from.as_str(), " as ", t.to_ty.as_str())
        },
        _ => {
            return None;
        },
    };
    let mut msg = concat3("transmute from `", t.from_ty.as_str(), "` to `");
    msg.append(t.to_ty.as_str());
    msg.append("` which could be expressed as a pointer cast instead");
    Some(
        Diagnostic {
            span: t.span,
            msg,
            note: None,
            suggestion: Some(
                Suggestion { span: t.span, msg: String::from_str("try"), replacement: sugg, applicability: t.app },
            ),
        },
    )
}

} // verus!
