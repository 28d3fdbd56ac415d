use vstd::prelude::*;

use crate::ast::Expr;
use crate::diagnostic::{build_diagnostic, message_text, receiver_view, replacement_text, Diagnostic};
use crate::matcher::{fires, match_expr};
use crate::oracle::TypeOracle;

verus! {

/// The group a rule belongs to in the host's registry.
#[derive(Clone, Copy, Debug, PartialEq, Eq)]
pub enum Category {
    Correctness,
    Complexity,
    Style,
    Perf,
}

/// A rule's default severity in the host's registry.
#[derive(Clone, Copy, Debug, PartialEq, Eq)]
pub enum Severity {
    Allow,
    Warn,
    Deny,
}

/// The immutable descriptor under which the host registers this rule: its
/// identifier, its one-line description, its category and its default
/// severity. The rule itself carries no state; registration happens once, at
/// startup.
pub struct RuleDescriptor {
    pub name: String,
    pub description: String,
    pub category: Category,
    pub severity: Severity,
}

/// The one-time registration call: the descriptor the host files this rule
/// under.
pub fn register() -> (d: RuleDescriptor)
    ensures
        d.name@ == "use_last"@,
        d.description@ == "Using `x.get(x.len() - 1)` when `x.last()` is correct and simpler"@,
        d.category is Complexity,
        d.severity is Warn,
{
    RuleDescriptor {
        name: "use_last".to_owned(),
        description: "Using `x.get(x.len() - 1)` when `x.last()` is correct and simpler".to_owned(),
        category: Category::Complexity,
        severity: Severity::Warn,
    }
}

/// The per-node entry point the host's traversal calls once per visited
/// expression: zero or one diagnostic per node, a diagnostic exactly when
/// the rule [`fires`] on the node. `receiver_text` is the receiver's source
/// text as the host re-printed it, `None` where it could not; the host
/// learns the receiver's span from [`match_expr`].
pub fn check_expr(e: &Expr, oracle: &TypeOracle, receiver_text: Option<&str>) -> (r: Option<
    Diagnostic,
>)
    ensures
        r is Some <==> fires(*e, *oracle),
        r matches Some(d) ==> {
            &&& d.span == e.spec_span()
            &&& d.message@ == message_text(receiver_view(receiver_text))
            &&& d.replacement@ == replacement_text(receiver_view(receiver_text))
            &&& (d.applicability is MachineApplicable <==> receiver_text is Some)
        },
{
    match match_expr(e, oracle) {
        Some(m) => build_diagnostic(&m, receiver_text),
        None => None,
    }
}

} // verus!
