//! A static-analysis rule that reports retrieving the last element of a
//! sequence as `x.get(x.len() - 1)` and suggests the dedicated accessor
//! `x.last()` instead.
//!
//! The rule works on a closed, typed expression tree ([`ast::Expr`]). For
//! each node the matcher ([`matcher::match_expr`]) recognizes the
//! `recv.get(recv.len() - k)` shape, proving that the two receiver subtrees
//! denote the same value ([`equivalence::equivalent`]) and that the
//! receiver's static type is a sequence ([`oracle::TypeOracle`]). Only the
//! offset `k == 1` is rewritable to a last-element accessor; for that case a
//! diagnostic with the replacement text and an applicability tier is built
//! ([`diagnostic::build_diagnostic`]).
//!
//! The host drives the tree walk, extracts source text by span, and emits
//! the diagnostics; none of that lives here.

pub mod ast;
pub mod diagnostic;
pub mod equivalence;
pub mod lint;
pub mod matcher;
pub mod oracle;
