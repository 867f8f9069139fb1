//! Substitution of paths when code is copied into another context, for IDE
//! code generation: which generic parameters are replaced by which types,
//! and what happens to each path of the copied code.
//!
//! What the semantic model knows (how a path resolves, the parameters of a
//! generic item, the bounds of a type parameter) reaches these functions as
//! plain values; types are carried as their source text.
use vstd::prelude::*;
use crate::text::{str_eq, strings_view};

verus! {

/// An argument of a generic argument list.
pub enum GenericArg {
    /// A type argument, with the text of its type (`None` when the syntax
    /// lacks it).
    Type(Option<String>),
    /// A lifetime, const or associated-type argument.
    Other,
}

/// The type arguments of an argument list, in order; `None` if one of them
/// lacks its type.
pub open spec fn type_args_spec(args: Seq<GenericArg>) -> Option<Seq<Seq<char>>>
    decreases args.len(),
{
    if args.len() == 0 {
        Some(Seq::empty())
    } else {
        match type_args_spec(args.drop_last()) {
            None => None,
            Some(prev) => match args.last() {
                GenericArg::Type(Some(t)) => Some(prev.push(t@)),
                GenericArg::Type(None) => None,
                GenericArg::Other => Some(prev),
            },
        }
    }
}

/// The type arguments of a generic argument list.
pub fn get_type_args_from_arg_list(args: &Vec<GenericArg>) -> (r: Option<Vec<String>>)
    ensures
        match r {
            Some(v) => type_args_spec(args@) == Some(strings_view(v@)),
            None => type_args_spec(args@) is None,
        },
{
    let mut result: Vec<String> = Vec::new();
    let mut i: usize = 0;
    assert(args@.take(0) =~= Seq::<GenericArg>::empty());
    assert(strings_view(result@) =~= Seq::<Seq<char>>::empty());
    while i < args.len()
        invariant
            i <= args.len(),
            type_args_spec(args@.take(i as int)) == Some(strings_view(result@)),
        decreases args.len() - i,
    {
        assert(args@.take(i + 1).drop_last() =~= args@.take(i as int));
        assert(args@.take(i + 1).last() == args@[i as int]);
        match &args[i] {
            GenericArg::Type(Some(t)) => {
                let ghost prev = result@;
                result.push(String::from_str(t.as_str()));
                assert(strings_view(result@) =~= strings_view(prev).push(t@));
            },
            GenericArg::Type(None) => {
                assert(type_args_spec(args@.take(i + 1)) is None);
                proof {
                    lemma_type_args_none_extends(args@, i + 1);
                }
                return None;
            },
            GenericArg::Other => {},
        }
        i = i + 1;
    }
    assert(args@.take(args.len() as int) =~= args@);
    Some(result)
}

/// Once a type argument lacks its type, every longer prefix has no type
/// arguments either.
pub proof fn lemma_type_args_none_extends(args: Seq<GenericArg>, k: int)
    requires
        0 <= k <= args.len(),
        type_args_spec(args.take(k)) is None,
    ensures
        type_args_spec(args) is None,
    decreases args.len() - k,
{
    if k < args.len() {
        assert(args.take(k + 1).drop_last() =~= args.take(k));
        lemma_type_args_none_extends(args, k + 1);
    } else {
        assert(args.take(k) =~= args);
    }
}

/// The type arguments of the trait that an `impl` implements: `None` unless
/// the trait is written as a path whose last segment has a generic argument
/// list (`trait_args`).
pub fn get_syntactic_substs(trait_args: Option<&Vec<GenericArg>>) -> (r: Option<Vec<String>>)
    ensures
        match trait_args {
            None => r is None,
            Some(args) => match r {
                Some(v) => type_args_spec(args@) == Some(strings_view(v@)),
                None => type_args_spec(args@) is None,
            },
        },
{
    match trait_args {
        None => None,
        Some(args) => get_type_args_from_arg_list(args),
    }
}

/// The item whose generic parameters are substituted.
#[derive(Clone, Copy, PartialEq, Eq, Structural)]
pub enum GenericDef {
    Trait,
    Function,
}

/// A generic parameter of that item.
pub enum ParamKind {
    /// A const parameter: never substituted.
    Const,
    /// A type parameter, with the text of its default type, when it has one
    /// that can be written in the source module.
    Type { default: Option<String> },
}

/// A generic parameter, with the number that names it.
pub struct GenericParam {
    pub id: u64,
    pub kind: ParamKind,
}

/// How a copy of code substitutes paths: the generic item whose parameters
/// are replaced, and the types that replace them, in order.
pub struct PathTransform {
    pub generic_def: Option<GenericDef>,
    pub substs: Vec<String>,
}

/// The values of a list of pairs of a parameter and a type.
pub open spec fn subst_view(v: Seq<(u64, String)>) -> Seq<(u64, Seq<char>)> {
    v.map_values(|p: (u64, String)| (p.0, p.1@))
}

/// The substitution for the parameters `params[skip..]`, matched in order
/// with `substs`: each type parameter goes to its argument, or, past the
/// end of the arguments, to its default if it has one; const parameters and
/// type parameters with neither are left out.
pub open spec fn substs_spec(params: Seq<GenericParam>, substs: Seq<Seq<char>>, skip: int, upto: int) -> Seq<
    (u64, Seq<char>),
>
    decreases upto - skip,
{
    if upto <= skip {
        Seq::empty()
    } else {
        let prev = substs_spec(params, substs, skip, upto - 1);
        let k = params[upto - 1];
        let i = upto - 1 - skip;
        match k.kind {
            ParamKind::Const => prev,
            ParamKind::Type { default } => if i < substs.len() {
                prev.push((k.id, substs[i]))
            } else {
                match default {
                    Some(d) => prev.push((k.id, d@)),
                    None => prev,
                }
            },
        }
    }
}

/// How many leading parameters are not substituted: a trait's first type
/// parameter is `Self`.
pub open spec fn skipped(def: Option<GenericDef>) -> int {
    if def == Some(GenericDef::Trait) {
        1
    } else {
        0
    }
}

/// The substitution that copying under `t` applies, given the parameters of
/// its generic item.
pub open spec fn ctx_spec(t: PathTransform, params: Seq<GenericParam>) -> Seq<(u64, Seq<char>)> {
    if t.generic_def is None || params.len() <= skipped(t.generic_def) {
        Seq::empty()
    } else {
        substs_spec(params, strings_view(t.substs@), skipped(t.generic_def), params.len() as int)
    }
}

impl PathTransform {
    /// Copying into an implementation of a generic trait: the trait's
    /// parameters are replaced by the `impl`'s type arguments.
    pub fn trait_impl(trait_args: Option<&Vec<GenericArg>>) -> (r: PathTransform)
        ensures
            r.generic_def == Some(GenericDef::Trait),
            match trait_args {
                Some(args) => match type_args_spec(args@) {
                    Some(ts) => strings_view(r.substs@) == ts,
                    None => r.substs@.len() == 0,
                },
                None => r.substs@.len() == 0,
            },
    {
        let substs = match get_syntactic_substs(trait_args) {
            Some(v) => v,
            None => Vec::new(),
        };
        PathTransform { generic_def: Some(GenericDef::Trait), substs }
    }

    /// Copying a call of a generic function: its parameters are replaced by
    /// the call's type arguments.
    pub fn function_call(generic_args: &Vec<GenericArg>) -> (r: PathTransform)
        ensures
            r.generic_def == Some(GenericDef::Function),
            match type_args_spec(generic_args@) {
                Some(ts) => strings_view(r.substs@) == ts,
                None => r.substs@.len() == 0,
            },
    {
        let substs = match get_type_args_from_arg_list(generic_args) {
            Some(v) => v,
            None => Vec::new(),
        };
        PathTransform { generic_def: Some(GenericDef::Function), substs }
    }

    /// Copying with paths requalified but no parameter replaced.
    pub fn generic_transformation() -> (r: PathTransform)
        ensures
            r.generic_def is None,
            r.substs@.len() == 0,
    {
        PathTransform { generic_def: None, substs: Vec::new() }
    }

    /// The substitution of parameters that the copy applies, given the
    /// parameters of its generic item (empty when there is none).
    pub fn build_ctx(&self, params: &Vec<GenericParam>) -> (r: Vec<(u64, String)>)
        ensures
            subst_view(r@) == ctx_spec(*self, params@),
    {
        let mut out: Vec<(u64, String)> = Vec::new();
        let skip: usize = match self.generic_def {
            Some(GenericDef::Trait) => 1,
            _ => 0,
        };
        if self.generic_def.is_none() || params.len() <= skip {
            assert(subst_view(out@) =~= Seq::<(u64, Seq<char>)>::empty());
            return out;
        }
        let ghost ss = strings_view(self.substs@);
        let mut k: usize = skip;
        assert(subst_view(out@) =~= Seq::<(u64, Seq<char>)>::empty());
        while k < params.len()
            invariant
                skip <= k <= params.len(),
                skip as int == skipped(self.generic_def),
                ss == strings_view(self.substs@),
                subst_view(out@) == substs_spec(params@, ss, skip as int, k as int),
            decreases params.len() - k,
        {
            let i = k - skip;
            match &params[k].kind {
                ParamKind::Const => {},
                ParamKind::Type { default } => {
                    if i < self.substs.len() {
                        assert(ss[i as int] == self.substs@[i as int]@);
                        let ghost prev = out@;
                        out.push((params[k].id, String::from_str(self.substs[i].as_str())));
                        assert(subst_view(out@) =~= subst_view(prev).push((params@[k as int].id, ss[i as int])));
                    } else {
                        match default {
                            Some(d) => {
                                let ghost prev = out@;
                                out.push((params[k].id, String::from_str(d.as_str())));
                                assert(subst_view(out@) =~= subst_view(prev).push((params@[k as int].id, d@)));
                            },
                            None => {},
                        }
                    }
                },
            }
            k = k + 1;
        }
        out
    }
}

/// A trait bound of a type parameter: the trait, and the names of its
/// associated types and named constants, each as its text (`None` for a name
/// that has no text).
pub struct TraitBound {
    pub id: u64,
    pub item_names: Vec<Option<String>>,
}

/// Searches the names in order: `Some(true)` if `target` is met, `Some(false)`
/// if not, `None` if a name without text comes first.
pub open spec fn names_have(names: Seq<Option<String>>, target: Seq<char>) -> Option<bool>
    decreases names.len(),
{
    if names.len() == 0 {
        Some(false)
    } else {
        match names[0] {
            None => None,
            Some(n) => if n@ == target {
                Some(true)
            } else {
                names_have(names.drop_first(), target)
            },
        }
    }
}

/// The first bound, in order, that has an associated item named `target`;
/// the search gives up at the first name without text.
pub open spec fn trait_for_assoc_spec(bounds: Seq<TraitBound>, target: Seq<char>) -> Option<u64>
    decreases bounds.len(),
{
    if bounds.len() == 0 {
        None
    } else {
        match names_have(bounds[0].item_names@, target) {
            Some(true) => Some(bounds[0].id),
            Some(false) => trait_for_assoc_spec(bounds.drop_first(), target),
            None => None,
        }
    }
}

/// The trait among the bounds of a type parameter that declares the
/// associated item `assoc_item`.
pub fn find_trait_for_assoc_item(bounds: &Vec<TraitBound>, assoc_item: &str) -> (r: Option<u64>)
    ensures
        r == trait_for_assoc_spec(bounds@, assoc_item@),
{
    let mut b: usize = 0;
    assert(bounds@.skip(0) =~= bounds@);
    while b < bounds.len()
        invariant
            b <= bounds.len(),
            trait_for_assoc_spec(bounds@, assoc_item@) == trait_for_assoc_spec(
                bounds@.skip(b as int),
                assoc_item@,
            ),
        decreases bounds.len() - b,
    {
        let names = &bounds[b].item_names;
        assert(bounds@.skip(b as int)[0] == bounds@[b as int]);
        assert(bounds@.skip(b as int).drop_first() =~= bounds@.skip(b + 1));
        let mut j: usize = 0;
        assert(names@.skip(0) =~= names@);
        while j < names.len()
            invariant
                b < bounds.len(),
                *names == bounds@[b as int].item_names,
                trait_for_assoc_spec(bounds@, assoc_item@) == trait_for_assoc_spec(
                    bounds@.skip(b as int),
                    assoc_item@,
                ),
                bounds@.skip(b as int)[0] == bounds@[b as int],
                j <= names.len(),
                names_have(names@, assoc_item@) == names_have(names@.skip(j as int), assoc_item@),
            decreases names.len() - j,
        {
            assert(names@.skip(j as int)[0] == names@[j as int]);
            assert(names@.skip(j as int).drop_first() =~= names@.skip(j + 1));
            match &names[j] {
                None => {
                    return None;
                },
                Some(n) => {
                    if str_eq(assoc_item, n.as_str()) {
                        return Some(bounds[b].id);
                    }
                },
            }
            j = j + 1;
        }
        assert(names@.skip(names.len() as int) =~= Seq::<Option<String>>::empty());
        b = b + 1;
    }
    None
}


/// The type that a substitution gives parameter `id`: that of its first
/// entry.
pub open spec fn subst_lookup(s: Seq<(u64, Seq<char>)>, id: u64) -> Option<Seq<char>>
    decreases s.len(),
{
    if s.len() == 0 {
        None
    } else if s[0].0 == id {
        Some(s[0].1)
    } else {
        subst_lookup(s.drop_first(), id)
    }
}

/// The type that a substitution gives parameter `id`.
pub fn lookup_subst(s: &Vec<(u64, String)>, id: u64) -> (r: Option<String>)
    ensures
        match r {
            Some(t) => subst_lookup(subst_view(s@), id) == Some(t@),
            None => subst_lookup(subst_view(s@), id) is None,
        },
{
    let ghost sv = subst_view(s@);
    let mut i: usize = 0;
    assert(sv.skip(0) =~= sv);
    while i < s.len()
        invariant
            sv == subst_view(s@),
            i <= s.len(),
            subst_lookup(sv, id) == subst_lookup(sv.skip(i as int), id),
        decreases s.len() - i,
    {
        assert(sv.skip(i as int)[0] == (s@[i as int].0, s@[i as int].1@));
        assert(sv.skip(i as int).drop_first() =~= sv.skip(i + 1));
        if s[i].0 == id {
            return Some(String::from_str(s[i].1.as_str()));
        }
        i = i + 1;
    }
    assert(sv.skip(s.len() as int) =~= Seq::<(u64, Seq<char>)>::empty());
    None
}

/// What is known of the last segment of a path.
pub struct SegmentFacts {
    /// The segment has a parenthesised parameter list, as in `Fn(A) -> B`.
    pub has_param_list: bool,
    /// The segment is `self`.
    pub is_self: bool,
    /// Whether the segment is of the `<T as Trait>` kind (`None` when its
    /// kind cannot be told).
    pub is_type_kind: Option<bool>,
    /// The text of its generic argument list, if it has one.
    pub generic_args: Option<String>,
}

/// What is known of a path of the copied code.
pub struct PathFacts {
    pub has_qualifier: bool,
    pub segment: Option<SegmentFacts>,
    /// The path is the qualifier of a longer path.
    pub has_parent_path: bool,
}

/// How a path resolves in the source scope.
pub enum Resolution {
    /// To a type parameter.
    TypeParam(u64),
    /// To an item that is not a local, a parameter or a built-in.
    Def { is_assoc_item: bool, is_trait: bool },
    /// To anything else.
    Other,
}

/// The syntax node around a path.
pub enum ParentNode {
    /// There is none.
    Missing,
    /// A longer path, whose last segment names `assoc_name` (`None` when it
    /// names nothing).
    Path { assoc_name: Option<String> },
    /// A type that is the path.
    PathType,
    /// Anything else.
    Other,
}

/// What becomes of a path.
pub enum PathAction {
    /// It stays as it is.
    Keep,
    /// A parameter with an associated item: the path becomes
    /// `<subst as Trait>`, for the trait among the parameter's bounds that
    /// declares `assoc_name`.
    QualifyAssoc { subst: String, assoc_name: String },
    /// A parameter used as a type: the type becomes `subst`.
    ReplaceParentType { subst: String },
    /// A parameter used otherwise: the path becomes `subst`.
    ReplacePath { subst: String },
    /// An item: the path becomes the path by which the target module reaches
    /// it, carrying over `generic_args`.
    UsePath { generic_args: Option<String> },
}

/// What becomes of a path, with texts as character sequences.
pub enum PathActionView {
    Keep,
    QualifyAssoc { subst: Seq<char>, assoc_name: Seq<char> },
    ReplaceParentType { subst: Seq<char> },
    ReplacePath { subst: Seq<char> },
    UsePath { generic_args: Option<Seq<char>> },
}

impl View for PathAction {
    type V = PathActionView;

    open spec fn view(&self) -> PathActionView {
        match self {
            PathAction::Keep => PathActionView::Keep,
            PathAction::QualifyAssoc { subst, assoc_name } => PathActionView::QualifyAssoc {
                subst: subst@,
                assoc_name: assoc_name@,
            },
            PathAction::ReplaceParentType { subst } => PathActionView::ReplaceParentType {
                subst: subst@,
            },
            PathAction::ReplacePath { subst } => PathActionView::ReplacePath { subst: subst@ },
            PathAction::UsePath { generic_args } => PathActionView::UsePath {
                generic_args: match generic_args {
                    Some(g) => Some(g@),
                    None => None,
                },
            },
        }
    }
}

/// What becomes of the path `p`, which resolves to `res` (`None`: it does
/// not resolve) and sits in `parent`, under the substitution `substs`.
/// Qualified paths, `Fn(..)` paths and a lone `self` stay; a substituted
/// parameter is replaced; an item that is not an associated item is
/// requalified, except a trait named in a `<T as Trait>` segment.
pub open spec fn transform_spec(
    p: PathFacts,
    res: Option<Resolution>,
    parent: ParentNode,
    substs: Seq<(u64, Seq<char>)>,
) -> PathActionView {
    if p.has_qualifier {
        PathActionView::Keep
    } else if p.segment matches Some(s) && (s.has_param_list || (s.is_self && !p.has_parent_path)) {
        PathActionView::Keep
    } else {
        match res {
            Some(Resolution::TypeParam(tp)) => match subst_lookup(substs, tp) {
                None => PathActionView::Keep,
                Some(t) => match parent {
                    ParentNode::Path { assoc_name: Some(n) } => PathActionView::QualifyAssoc {
                        subst: t,
                        assoc_name: n@,
                    },
                    ParentNode::PathType => PathActionView::ReplaceParentType { subst: t },
                    ParentNode::Other => PathActionView::ReplacePath { subst: t },
                    _ => PathActionView::Keep,
                },
            },
            Some(Resolution::Def { is_assoc_item, is_trait }) => if is_assoc_item {
                PathActionView::Keep
            } else if is_trait && !(p.segment matches Some(s) && s.is_type_kind == Some(false)) {
                PathActionView::Keep
            } else {
                PathActionView::UsePath {
                    generic_args: match p.segment {
                        Some(s) => match s.generic_args {
                            Some(g) => Some(g@),
                            None => None,
                        },
                        None => None,
                    },
                }
            },
            _ => PathActionView::Keep,
        }
    }
}

/// Decides what becomes of a path of the copied code.
pub fn transform_path(
    p: &PathFacts,
    res: &Option<Resolution>,
    parent: &ParentNode,
    substs: &Vec<(u64, String)>,
) -> (r: PathAction)
    ensures
        r@ == transform_spec(*p, *res, *parent, subst_view(substs@)),
{
    if p.has_qualifier {
        return PathAction::Keep;
    }
    match &p.segment {
        Some(s) => {
            if s.has_param_list || (s.is_self && !p.has_parent_path) {
                return PathAction::Keep;
            }
        },
        None => {},
    }
    match res {
        Some(Resolution::TypeParam(tp)) => match lookup_subst(substs, *tp) {
            None => PathAction::Keep,
            Some(t) => match parent {
                ParentNode::Path { assoc_name: Some(n) } => PathAction::QualifyAssoc {
                    subst: t,
                    assoc_name: String::from_str(n.as_str()),
                },
                ParentNode::PathType => PathAction::ReplaceParentType { subst: t },
                ParentNode::Other => PathAction::ReplacePath { subst: t },
                _ => PathAction::Keep,
            },
        },
        Some(Resolution::Def { is_assoc_item, is_trait }) => {
            if *is_assoc_item {
                return PathAction::Keep;
            }
            let type_kind_segment = match &p.segment {
                Some(s) => s.is_type_kind,
                None => None,
            };
            if *is_trait && type_kind_segment != Some(false) {
                return PathAction::Keep;
            }
            let generic_args = match &p.segment {
                Some(s) => match &s.generic_args {
                    Some(g) => Some(String::from_str(g.as_str())),
                    None => None,
                },
                None => None,
            };
            PathAction::UsePath { generic_args }
        },
        _ => PathAction::Keep,
    }
}

} // verus!
