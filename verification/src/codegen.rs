//! Decisions that the GCC back end takes when it declares a function or a
//! static ahead of its definition.
use vstd::prelude::*;

verus! {

/// How a symbol is linked.
#[derive(Clone, Copy, PartialEq, Eq, Structural)]
pub enum Linkage {
    External,
    AvailableExternally,
    LinkOnceAny,
    LinkOnceODR,
    WeakAny,
    WeakODR,
    Appending,
    Internal,
    Private,
    ExternalWeak,
    Common,
}

/// How visible a symbol is outside its object file.
#[derive(Clone, Copy, PartialEq, Eq, Structural)]
pub enum Visibility {
    Default,
    Hidden,
    Protected,
}

/// The visibility that a declared function gets: hidden for every
/// exported function of the compiler-builtins crate, which is linked into
/// everything; else the requested one.
pub fn fn_visibility(linkage: Linkage, compiling_builtins: bool, requested: Visibility) -> (r: Visibility)
    ensures
        r == if linkage != Linkage::Internal && linkage != Linkage::Private && compiling_builtins {
            Visibility::Hidden
        } else {
            requested
        },
{
    if linkage != Linkage::Internal && linkage != Linkage::Private && compiling_builtins {
        Visibility::Hidden
    } else {
        requested
    }
}

/// The code-generation attributes of a static that matter here.
pub struct StaticAttrs {
    /// The static is thread-local.
    pub thread_local: bool,
    /// The section it is placed in, if one is requested.
    pub link_section: Option<String>,
}

/// How a static is declared: thread-local or not, in the requested section.
pub fn static_declaration(attrs: &StaticAttrs) -> (r: (bool, Option<&str>))
    ensures
        r.0 == attrs.thread_local,
        match attrs.link_section {
            Some(s) => r.1 matches Some(t) && t@ == s@,
            None => r.1 is None,
        },
{
    let section = match &attrs.link_section {
        Some(s) => Some(s.as_str()),
        None => None,
    };
    (attrs.thread_local, section)
}

} // verus!
