use vstd::prelude::*;
use vstd::string::StringExecFns;

use crate::ast::Span;
use crate::matcher::MatchResult;

verus! {

/// The confidence tier on an automated fix: safe to apply mechanically, or
/// in need of a human eye because the receiver text could not be re-printed
/// verbatim from the source.
#[derive(Clone, Copy, Debug, PartialEq, Eq)]
pub enum Applicability {
    MachineApplicable,
    NeedsManualReview,
}

/// One report handed to the host's diagnostic emitter: message text, the
/// primary span, the replacement text, and the applicability tier.
pub struct Diagnostic {
    pub message: String,
    pub span: Span,
    pub replacement: String,
    pub applicability: Applicability,
}

/// The receiver text the suggestion is built from: the text the host
/// re-printed from the source, or the placeholder `x` where it could not.
pub open spec fn receiver_view(receiver_text: Option<&str>) -> Seq<char> {
    match receiver_text {
        Some(t) => t@,
        None => "x"@,
    }
}

/// The replacement offered for receiver text `v`: `v.last()`.
pub open spec fn replacement_text(v: Seq<char>) -> Seq<char> {
    v + ".last()"@
}

/// The message shown for receiver text `v`.
pub open spec fn message_text(v: Seq<char>) -> Seq<char> {
    "Use `"@ + v + ".last()` instead of `"@ + v + ".get("@ + v + ".len() - 1)`"@
}

/// Builds the report for a match, or refuses: a match whose offset is not
/// exactly 1 must never turn into the "use a last-element accessor"
/// suggestion. `receiver_text` is the receiver's source text as the host
/// re-printed it; `None` means the host could not re-print it verbatim (for
/// instance under macro expansion), so a placeholder stands in and the fix
/// needs manual review.
pub fn build_diagnostic(m: &MatchResult, receiver_text: Option<&str>) -> (r: Option<Diagnostic>)
    ensures
        r is Some <==> m.offset == 1,
        r matches Some(d) ==> {
            &&& d.span == m.span
            &&& d.message@ == message_text(receiver_view(receiver_text))
            &&& d.replacement@ == replacement_text(receiver_view(receiver_text))
            &&& (d.applicability is MachineApplicable <==> receiver_text is Some)
        },
{
    if m.offset != 1 {
        return None;
    }
    let (text, applicability): (&str, Applicability) = match receiver_text {
        Some(t) => (t, Applicability::MachineApplicable),
        None => ("x", Applicability::NeedsManualReview),
    };
    let mut message: String = "Use `".to_owned();
    message.append(text);
    message.append(".last()` instead of `");
    message.append(text);
    message.append(".get(");
    message.append(text);
    message.append(".len() - 1)`");
    let mut replacement: String = text.to_owned();
    replacement.append(".last()");
    Some(Diagnostic { message, span: m.span, replacement, applicability })
}

} // verus!
