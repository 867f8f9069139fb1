//! The test outputs that report symbol names: for each item that carries a
//! `symbol_name` attribute, its mangled symbol name and that name demangled
//! (with and without its hash); for each `def_path` attribute, its path.
use vstd::prelude::*;
use crate::diag::Span;

verus! {

/// The demangled forms of the symbol `s`, as `rustc_demangle::try_demangle`
/// gives them formatted with `{}` and with `{:#}` (without the hash), or
/// `None` where `s` is not a Rust symbol.
pub uninterp spec fn demangled(s: Seq<char>) -> Option<(Seq<char>, Seq<char>)>;

/// `rustc_demangle::try_demangle(s)`, formatted both ways; its result is
/// named by `demangled`, a function of the characters of `s` alone.
#[verifier::external_body]
fn try_demangle(s: &str) -> (r: Option<(String, String)>)
    ensures
        match r {
            Some((a, b)) => demangled(s@) == Some((a@, b@)),
            None => demangled(s@) is None,
        },
{
    match rustc_demangle::try_demangle(s) {
        Ok(d) => Some((format!("{}", d), format!("{:#}", d))),
        Err(_) => None,
    }
}

/// What a test output reports.
#[derive(Clone, Copy, PartialEq, Eq, Structural)]
pub enum Kind {
    SymbolName,
    Demangling,
    DemanglingAlt,
    DefPath,
}

/// A test output: an error at the attribute's span that carries the
/// reported text.
pub struct TestOutput {
    pub span: Span,
    pub kind: Kind,
    pub content: String,
}

/// The values of a list of outputs.
pub open spec fn outputs_view(v: Seq<TestOutput>) -> Seq<(Span, Kind, Seq<char>)> {
    v.map_values(|o: TestOutput| (o.span, o.kind, o.content@))
}

/// An item, with what the reports need: the spans of its `symbol_name`
/// attributes and of its `def_path` attributes, its mangled symbol name,
/// and its path.
pub struct ItemAttrs {
    pub symbol_name_attrs: Vec<Span>,
    pub def_path_attrs: Vec<Span>,
    pub mangled: String,
    pub def_path: String,
}

/// The outputs for one `symbol_name` attribute at `span`.
pub open spec fn symbol_outputs(span: Span, mangled: Seq<char>) -> Seq<(Span, Kind, Seq<char>)> {
    seq![(span, Kind::SymbolName, mangled)] + match demangled(mangled) {
        Some((d, alt)) => seq![(span, Kind::Demangling, d), (span, Kind::DemanglingAlt, alt)],
        None => Seq::empty(),
    }
}

/// The outputs for the `symbol_name` attributes `spans[..k]`.
pub open spec fn symbol_outputs_upto(spans: Seq<Span>, mangled: Seq<char>, k: int) -> Seq<(Span, Kind, Seq<char>)>
    decreases k,
{
    if k <= 0 {
        Seq::empty()
    } else {
        symbol_outputs_upto(spans, mangled, k - 1) + symbol_outputs(spans[k - 1], mangled)
    }
}

/// The outputs for an item: those of its `symbol_name` attributes, then one
/// for each `def_path` attribute.
pub open spec fn item_outputs(item: ItemAttrs) -> Seq<(Span, Kind, Seq<char>)> {
    symbol_outputs_upto(item.symbol_name_attrs@, item.mangled@, item.symbol_name_attrs@.len() as int)
        + item.def_path_attrs@.map_values(|s: Span| (s, Kind::DefPath, item.def_path@))
}

/// Appends the outputs for one item.
pub fn process_attrs(item: &ItemAttrs, out: &mut Vec<TestOutput>)
    ensures
        outputs_view(final(out)@) == outputs_view(old(out)@) + item_outputs(*item),
{
    let ghost start = outputs_view(out@);
    let mut i: usize = 0;
    assert(outputs_view(out@) =~= start + symbol_outputs_upto(item.symbol_name_attrs@, item.mangled@, 0));
    while i < item.symbol_name_attrs.len()
        invariant
            i <= item.symbol_name_attrs.len(),
            outputs_view(out@) == start + symbol_outputs_upto(item.symbol_name_attrs@, item.mangled@, i as int),
        decreases item.symbol_name_attrs.len() - i,
    {
        let span = item.symbol_name_attrs[i];
        let ghost before = outputs_view(out@);
        out.push(TestOutput { span, kind: Kind::SymbolName, content: String::from_str(item.mangled.as_str()) });
        match try_demangle(item.mangled.as_str()) {
            Some((d, alt)) => {
                out.push(TestOutput { span, kind: Kind::Demangling, content: d });
                out.push(TestOutput { span, kind: Kind::DemanglingAlt, content: alt });
            },
            None => {},
        }
        assert(outputs_view(out@) =~= before + symbol_outputs(span, item.mangled@));
        i = i + 1;
    }
    let ghost mid = outputs_view(out@);
    let mut j: usize = 0;
    while j < item.def_path_attrs.len()
        invariant
            j <= item.def_path_attrs.len(),
            outputs_view(out@) == mid + item.def_path_attrs@.take(j as int).map_values(
                |s: Span| (s, Kind::DefPath, item.def_path@),
            ),
        decreases item.def_path_attrs.len() - j,
    {
        let ghost before = outputs_view(out@);
        out.push(TestOutput { span: item.def_path_attrs[j], kind: Kind::DefPath, content: String::from_str(item.def_path.as_str()) });
        assert(item.def_path_attrs@.take(j + 1).map_values(|s: Span| (s, Kind::DefPath, item.def_path@))
            =~= item.def_path_attrs@.take(j as int).map_values(|s: Span| (s, Kind::DefPath, item.def_path@)).push(
            (item.def_path_attrs@[j as int], Kind::DefPath, item.def_path@),
        ));
        assert(outputs_view(out@) =~= before.push((item.def_path_attrs@[j as int], Kind::DefPath, item.def_path@)));
        j = j + 1;
    }
    assert(item.def_path_attrs@.take(item.def_path_attrs.len() as int) =~= item.def_path_attrs@);
    assert(outputs_view(out@) =~= outputs_view(old(out)@) + item_outputs(*item));
}

/// The outputs for the items `items[..k]`, in order.
pub open spec fn items_outputs(items: Seq<ItemAttrs>, k: int) -> Seq<(Span, Kind, Seq<char>)>
    decreases k,
{
    if k <= 0 {
        Seq::empty()
    } else {
        items_outputs(items, k - 1) + item_outputs(items[k - 1])
    }
}

fn process_all(items: &Vec<ItemAttrs>, out: &mut Vec<TestOutput>)
    ensures
        outputs_view(final(out)@) == outputs_view(old(out)@) + items_outputs(items@, items@.len() as int),
{
    let ghost start = outputs_view(out@);
    let mut i: usize = 0;
    assert(outputs_view(out@) =~= start + items_outputs(items@, 0));
    while i < items.len()
        invariant
            i <= items.len(),
            outputs_view(out@) == start + items_outputs(items@, i as int),
        decreases items.len() - i,
    {
        process_attrs(&items[i], out);
        assert(outputs_view(out@) =~= start + items_outputs(items@, i + 1));
        i = i + 1;
    }
}

/// The outputs for a crate: none unless the `crablangc_attrs` feature is
/// on (`enabled`); else those of its items, trait items, impl items and
/// foreign items, in that order.
pub fn report_symbol_names(
    enabled: bool,
    items: &Vec<ItemAttrs>,
    trait_items: &Vec<ItemAttrs>,
    impl_items: &Vec<ItemAttrs>,
    foreign_items: &Vec<ItemAttrs>,
) -> (r: Vec<TestOutput>)
    ensures
        outputs_view(r@) == if enabled {
            items_outputs(items@, items@.len() as int) + items_outputs(trait_items@, trait_items@.len() as int)
                + items_outputs(impl_items@, impl_items@.len() as int) + items_outputs(
                foreign_items@,
                foreign_items@.len() as int,
            )
        } else {
            Seq::empty()
        },
{
    let mut out: Vec<TestOutput> = Vec::new();
    assert(outputs_view(out@) =~= Seq::<(Span, Kind, Seq<char>)>::empty());
    if !enabled {
        return out;
    }
    process_all(items, &mut out);
    process_all(trait_items, &mut out);
    process_all(impl_items, &mut out);
    process_all(foreign_items, &mut out);
    out
}

} // verus!
