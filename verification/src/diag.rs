//! Source spans and the diagnostics that the checks report.
use vstd::prelude::*;

verus! {

/// A region of source text, as byte offsets.
#[derive(Clone, Copy, PartialEq, Eq, Structural)]
pub struct Span {
    pub lo: u32,
    pub hi: u32,
}

/// How safely a suggested replacement can be applied by a tool.
#[derive(Clone, Copy, PartialEq, Eq, Structural)]
pub enum Applicability {
    /// The replacement is right and can be applied as it is.
    MachineApplicable,
    /// The replacement may be wrong; a person should look at it.
    MaybeIncorrect,
    /// The replacement holds placeholders that a person must fill in.
    HasPlaceholders,
    /// Nothing is known of the replacement.
    Unspecified,
}

/// A replacement proposed for a region of source text.
pub struct Suggestion {
    pub span: Span,
    pub msg: String,
    pub replacement: String,
    pub applicability: Applicability,
}

/// A message about a region of source text, with an optional note that
/// points at another region and an optional replacement.
pub struct Diagnostic {
    pub span: Span,
    pub msg: String,
    pub note: Option<(Span, String)>,
    pub suggestion: Option<Suggestion>,
}

/// A diagnostic, with its texts as character sequences.
pub struct DiagModel {
    pub span: Span,
    pub msg: Seq<char>,
    pub note: Option<(Span, Seq<char>)>,
    pub suggestion: Option<(Span, Seq<char>, Seq<char>, Applicability)>,
}

impl View for Diagnostic {
    type V = DiagModel;

    open spec fn view(&self) -> DiagModel {
        DiagModel {
            span: self.span,
            msg: self.msg@,
            note: match self.note {
                Some((s, m)) => Some((s, m@)),
                None => None,
            },
            suggestion: match self.suggestion {
                Some(g) => Some((g.span, g.msg@, g.replacement@, g.applicability)),
                None => None,
            },
        }
    }
}

/// The diagnostics of a list, as values.
pub open spec fn diags_view(ds: Seq<Diagnostic>) -> Seq<DiagModel> {
    ds.map_values(|d: Diagnostic| d@)
}

/// A plain message at `span`.
pub open spec fn plain_diag(span: Span, msg: Seq<char>) -> DiagModel {
    DiagModel { span, msg, note: None, suggestion: None }
}

/// Makes a plain message at `span`.
pub fn make_plain(span: Span, msg: String) -> (d: Diagnostic)
    ensures
        d@ == plain_diag(span, msg@),
{
    Diagnostic { span, msg, note: None, suggestion: None }
}

/// Appending one diagnostic to a list appends its value to the list's value.
pub proof fn lemma_diags_push(ds: Seq<Diagnostic>, d: Diagnostic)
    ensures
        diags_view(ds.push(d)) == diags_view(ds).push(d@),
{
    assert(diags_view(ds.push(d)) =~= diags_view(ds).push(d@));
}

} // verus!
