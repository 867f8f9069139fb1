//! Smaller lints: an inherent `to_string` method (`inherent_to_string`), a
//! `Mutex` around a value that an atomic could hold (`mutex_atomic`), and
//! `vec![Rc::new(..); n]`, which shares one pointer (`rc_clone_in_vec_init`).
//!
//! What the compiler knows of items, types and expressions reaches these
//! checks as plain values.
use vstd::prelude::*;
use crate::diag::{Applicability, Span};
use crate::text::{concat3, str_eq};

verus! {

/// What `inherent_to_string` needs to know of an item of an `impl` block.
pub struct ImplItemFacts {
    pub span: Span,
    pub from_expansion: bool,
    /// The item is a method named `to_string`.
    pub is_to_string_fn: bool,
    /// It takes `self` and nothing else.
    pub only_self: bool,
    /// All its generic parameters are lifetimes.
    pub only_lifetime_params: bool,
    /// It returns `String`.
    pub returns_string: bool,
    /// It implements a method of a trait.
    pub in_trait_impl: bool,
    /// How the type of `self`, references peeled, prints.
    pub self_type: String,
    /// That type implements `Display`.
    pub implements_display: bool,
}

/// Which lint reports an inherent `to_string`.
#[derive(Clone, Copy, PartialEq, Eq, Structural)]
pub enum ToStringLint {
    /// The type also implements `Display`, whose `to_string` it shadows.
    ShadowDisplay,
    /// The type does not implement `Display`.
    Inherent,
}

/// A report with a help message.
pub struct HelpLint<K> {
    pub kind: K,
    pub span: Span,
    pub msg: String,
    pub help: String,
}

/// Whether the item is an inherent `fn to_string(&self) -> String`.
pub open spec fn inherent_to_string_spec(i: ImplItemFacts) -> bool {
    !i.from_expansion && i.is_to_string_fn && i.only_self && i.only_lifetime_params && i.returns_string
        && !i.in_trait_impl
}

/// Checks an item of an `impl` block for an inherent `to_string` method.
pub fn check_impl_item(i: &ImplItemFacts) -> (r: Option<HelpLint<ToStringLint>>)
    ensures
        r is Some <==> inherent_to_string_spec(*i),
        r matches Some(l) ==> l.span == i.span && if i.implements_display {
            &&& l.kind == ToStringLint::ShadowDisplay
            &&& l.msg@ == "type `"@ + i.self_type@
                + "` implements inherent method `to_string(&self) -> String` which shadows the implementation of `Display`"@
            &&& l.help@ == "remove the inherent method from type `"@ + i.self_type@ + "`"@
        } else {
            &&& l.kind == ToStringLint::Inherent
            &&& l.msg@ == "implementation of inherent method `to_string(&self) -> String` for type `"@
                + i.self_type@ + "`"@
            &&& l.help@ == "implement trait `Display` for type `"@ + i.self_type@ + "` instead"@
        },
{
    if i.from_expansion {
        return None;
    }
    if !(i.is_to_string_fn && i.only_self && i.only_lifetime_params && i.returns_string
        && !i.in_trait_impl) {
        return None;
    }
    Some(show_lint(i))
}

fn show_lint(i: &ImplItemFacts) -> (r: HelpLint<ToStringLint>)
    ensures
        r.span == i.span,
        if i.implements_display {
            &&& r.kind == ToStringLint::ShadowDisplay
            &&& r.msg@ == "type `"@ + i.self_type@
                + "` implements inherent method `to_string(&self) -> String` which shadows the implementation of `Display`"@
            &&& r.help@ == "remove the inherent method from type `"@ + i.self_type@ + "`"@
        } else {
            &&& r.kind == ToStringLint::Inherent
            &&& r.msg@ == "implementation of inherent method `to_string(&self) -> String` for type `"@
                + i.self_type@ + "`"@
            &&& r.help@ == "implement trait `Display` for type `"@ + i.self_type@ + "` instead"@
        },
{
    let t = i.self_type.as_str();
    if i.implements_display {
        HelpLint {
            kind: ToStringLint::ShadowDisplay,
            span: i.span,
            msg: concat3(
                "type `",
                t,
                "` implements inherent method `to_string(&self) -> String` which shadows the implementation of `Display`",
            ),
            help: concat3("remove the inherent method from type `", t, "`"),
        }
    } else {
        HelpLint {
            kind: ToStringLint::Inherent,
            span: i.span,
            msg: concat3(
                "implementation of inherent method `to_string(&self) -> String` for type `",
                t,
                "`",
            ),
            help: concat3("implement trait `Display` for type `", t, "` instead"),
        }
    }
}

/// The type that a `Mutex` holds.
#[derive(Clone, Copy, PartialEq, Eq, Structural)]
pub enum MutexParam {
    Bool,
    /// An unsigned integer.
    Uint,
    /// A signed integer.
    Int,
    RawPtr,
    /// A reference.
    Ref,
    Other,
}

/// The atomic type that can hold a value of type `p`: `AtomicBool` for a
/// bool, `AtomicUsize` and `AtomicIsize` for integers, `AtomicPtr` for
/// pointers and references.
pub open spec fn atomic_name(p: MutexParam) -> Option<Seq<char>> {
    match p {
        MutexParam::Bool => Some("AtomicBool"@),
        MutexParam::Uint => Some("AtomicUsize"@),
        MutexParam::Int => Some("AtomicIsize"@),
        MutexParam::RawPtr => Some("AtomicPtr"@),
        MutexParam::Ref => Some("AtomicPtr"@),
        MutexParam::Other => None,
    }
}

/// The atomic type that can hold a value of type `p`.
pub fn get_atomic_name(p: MutexParam) -> (r: Option<&'static str>)
    ensures
        match r {
            Some(n) => atomic_name(p) == Some(n@),
            None => atomic_name(p) is None,
        },
{
    match p {
        MutexParam::Bool => Some("AtomicBool"),
        MutexParam::Uint => Some("AtomicUsize"),
        MutexParam::Int => Some("AtomicIsize"),
        MutexParam::RawPtr => Some("AtomicPtr"),
        MutexParam::Ref => Some("AtomicPtr"),
        MutexParam::Other => None,
    }
}

/// Which lint reports a `Mutex` around an atomic-sized value.
#[derive(Clone, Copy, PartialEq, Eq, Structural)]
pub enum MutexLint {
    /// An integer of any integral type.
    MutexInteger,
    /// A bool, a pointer or a reference.
    MutexAtomic,
}

/// A report without help.
pub struct KindLint<K> {
    pub kind: K,
    pub span: Span,
    pub msg: String,
}

/// The lint that reports a `Mutex` around a value of type `p`.
pub open spec fn mutex_lint_kind(p: MutexParam) -> MutexLint {
    match p {
        MutexParam::Uint | MutexParam::Int => MutexLint::MutexInteger,
        _ => MutexLint::MutexAtomic,
    }
}

/// Checks an expression at `span` whose type is `Mutex<T>` (when
/// `param` is `Some(T)`): `mutex_integer` for an integral `T`,
/// `mutex_atomic` for a bool, a pointer or a reference.
pub fn check_mutex(span: Span, param: Option<MutexParam>) -> (r: Option<KindLint<MutexLint>>)
    ensures
        r is Some <==> (param matches Some(p) && atomic_name(p) is Some),
        r matches Some(l) ==> param matches Some(p) && atomic_name(p) matches Some(name) && {
            &&& l.span == span
            &&& l.msg@ == "consider using an `"@ + name
                + "` instead of a `Mutex` here; if you just want the locking behavior and not the internal type, consider using `Mutex<()>`"@
            &&& l.kind == mutex_lint_kind(p)
        },
{
    let p = match param {
        Some(p) => p,
        None => {
            return None;
        },
    };
    let name = match get_atomic_name(p) {
        Some(n) => n,
        None => {
            return None;
        },
    };
    let msg = concat3(
        "consider using an `",
        name,
        "` instead of a `Mutex` here; if you just want the locking behavior and not the internal type, consider using `Mutex<()>`",
    );
    let kind = match p {
        MutexParam::Uint | MutexParam::Int => MutexLint::MutexInteger,
        _ => MutexLint::MutexAtomic,
    };
    Some(KindLint { kind, span, msg })
}

/// The suggestion that fills the vector in a loop, each element initialised
/// on its own.
pub open spec fn loop_init_text(elem: Seq<char>, len: Seq<char>, indent: Seq<char>) -> Seq<char> {
    "{\n"@ + indent + "    let mut v = Vec::with_capacity("@ + len + ");\n"@ + indent + "    (0.."@ + len
        + ").for_each(|_| v.push("@ + elem + "));\n"@ + indent + "    v\n"@ + indent + "}"@
}

/// The suggestion that names the shared element.
pub open spec fn extract_text(elem: Seq<char>, len: Seq<char>, indent: Seq<char>) -> Seq<char> {
    "{\n"@ + indent + "    let data = "@ + elem + ";\n"@ + indent + "    vec![data; "@ + len + "]\n"@
        + indent + "}"@
}

/// The suggestion that fills the vector in a loop.
pub fn loop_init_suggestion(elem: &str, len: &str, indent: &str) -> (r: String)
    ensures
        r@ == loop_init_text(elem@, len@, indent@),
{
    let mut s = concat3("{\n", indent, "    let mut v = Vec::with_capacity(");
    s.append(len);
    s.append(");\n");
    s.append(indent);
    s.append("    (0..");
    s.append(len);
    s.append(").for_each(|_| v.push(");
    s.append(elem);
    s.append("));\n");
    s.append(indent);
    s.append("    v\n");
    s.append(indent);
    s.append("}");
    s
}

/// The suggestion that names the shared element.
pub fn extract_suggestion(elem: &str, len: &str, indent: &str) -> (r: String)
    ensures
        r@ == extract_text(elem@, len@, indent@),
{
    let mut s = concat3("{\n", indent, "    let data = ");
    s.append(elem);
    s.append(";\n");
    s.append(indent);
    s.append("    vec![data; ");
    s.append(len);
    s.append("]\n");
    s.append(indent);
    s.append("}");
    s
}

/// `n` spaces.
pub fn spaces(n: usize) -> (r: String)
    ensures
        r@ == Seq::new(n as nat, |i: int| ' '),
{
    let mut s = String::new();
    let mut i: usize = 0;
    while i < n
        invariant
            i <= n,
            s@ == Seq::new(i as nat, |k: int| ' '),
        decreases n - i,
    {
        crate::text::push_char(&mut s, ' ');
        i = i + 1;
        assert(s@ =~= Seq::new(i as nat, |k: int| ' '));
    }
    s
}

/// The call that initialises the element of `vec![elem; len]`.
pub struct InitCall {
    pub func_span: Span,
    /// The last segment of the called path, as in `Rc::new`.
    pub method: String,
    /// The diagnostic name of the type the path starts with, if it has one.
    pub diag_name: Option<String>,
    /// The call returns a `rc::Weak` or a `sync::Weak`.
    pub returns_weak: bool,
}

/// The pointer type that the element initialises, and the span of the
/// callee: `Rc::new` and `Arc::new`, or any call that returns a `Weak`.
pub open spec fn ref_init_spec(c: InitCall) -> Option<(Seq<char>, Span)> {
    if c.method@ == "new"@ && (c.diag_name matches Some(n) && (n@ == "Arc"@ || n@ == "Rc"@)) {
        Some((c.diag_name.unwrap()@, c.func_span))
    } else if c.returns_weak {
        Some(("Weak"@, c.func_span))
    } else {
        None
    }
}

/// The pointer type that the element initialises, if it is one that the
/// vector would share.
pub fn ref_init(c: &InitCall) -> (r: Option<(String, Span)>)
    ensures
        match r {
            Some((n, sp)) => ref_init_spec(*c) == Some((n@, sp)),
            None => ref_init_spec(*c) is None,
        },
{
    if str_eq(c.method.as_str(), "new") {
        match &c.diag_name {
            Some(n) => {
                if str_eq(n.as_str(), "Arc") || str_eq(n.as_str(), "Rc") {
                    return Some((String::from_str(n.as_str()), c.func_span));
                }
            },
            None => {},
        }
    }
    if c.returns_weak {
        return Some((String::from_str("Weak"), c.func_span));
    }
    None
}

/// A report of `rc_clone_in_vec_init`.
pub struct RcCloneLint {
    pub span: Span,
    pub msg: String,
    pub note: String,
    /// Each replacement of the macro call: its message and its text.
    pub suggestions: Vec<(String, String)>,
    /// How safely the replacements can be applied.
    pub applicability: Applicability,
}

/// Whether `l` is the report on `vec![elem; len]` at `span` whose element
/// initialises a `symbol` pointer, with `callee`, `len` and `indent` as in
/// `emit_lint`.
pub open spec fn rc_lint_is(
    l: RcCloneLint,
    symbol: Seq<char>,
    span: Span,
    callee: Seq<char>,
    len: Seq<char>,
    indent: Option<usize>,
) -> bool {
    let elem = callee + "(..)"@;
    let ind = Seq::new(
        match indent {
            Some(n) => n as nat,
            None => 0nat,
        },
        |i: int| ' ',
    );
    &&& l.span == span
    &&& l.msg@ == "initializing a reference-counted pointer in `vec![elem; len]`"@
    &&& l.note@ == "each element will point to the same `"@ + symbol + "` instance"@
    &&& l.suggestions@.len() == 2
    &&& l.applicability == Applicability::HasPlaceholders
    &&& l.suggestions@[0].0@ == "consider initializing each `"@ + symbol + "` element individually"@
    &&& l.suggestions@[0].1@ == loop_init_text(elem, len, ind)
    &&& l.suggestions@[1].0@ == "or if this is intentional, consider extracting the `"@ + symbol
        + "` initialization to a variable"@
    &&& l.suggestions@[1].1@ == extract_text(elem, len, ind)
}

/// Reports `vec![elem; len]` at `span` whose element initialises a `symbol`
/// pointer; `callee` is the text of the element up to the end of the called
/// path, `len` that of the length, and `indent` the indentation of the
/// macro call, if known.
pub fn emit_lint(symbol: &str, span: Span, callee: &str, len: &str, indent: Option<usize>) -> (r: RcCloneLint)
    ensures
        rc_lint_is(r, symbol@, span, callee@, len@, indent),
{
    let mut elem = String::from_str(callee);
    elem.append("(..)");
    let n = match indent {
        Some(n) => n,
        None => 0,
    };
    let ind = spaces(n);
    let loop_sugg = loop_init_suggestion(elem.as_str(), len, ind.as_str());
    let extract_sugg = extract_suggestion(elem.as_str(), len, ind.as_str());
    let mut suggestions: Vec<(String, String)> = Vec::new();
    suggestions.push((concat3("consider initializing each `", symbol, "` element individually"), loop_sugg));
    suggestions.push(
        (
            concat3(
                "or if this is intentional, consider extracting the `",
                symbol,
                "` initialization to a variable",
            ),
            extract_sugg,
        ),
    );
    RcCloneLint {
        span,
        msg: String::from_str("initializing a reference-counted pointer in `vec![elem; len]`"),
        note: concat3("each element will point to the same `", symbol, "` instance"),
        suggestions,
        applicability: Applicability::HasPlaceholders,
    }
}

/// Checks a `vec![elem; len]` macro call at `span`, whose element is the
/// call `init` (when it is a call of a type-relative path).
pub fn check_vec_init(span: Span, init: Option<&InitCall>, callee: &str, len: &str, indent: Option<usize>) -> (r:
    Option<RcCloneLint>)
    ensures
        r is Some <==> (init matches Some(c) && ref_init_spec(*c) is Some),
        r matches Some(l) ==> init matches Some(c) && ref_init_spec(*c) matches Some((sym, _))
            && rc_lint_is(l, sym, span, callee@, len@, indent),
{
    match init {
        None => None,
        Some(c) => match ref_init(c) {
            None => None,
            Some((symbol, _func_span)) => Some(emit_lint(symbol.as_str(), span, callee, len, indent)),
        },
    }
}

} // verus!
