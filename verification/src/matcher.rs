use vstd::prelude::*;

use crate::ast::{BinOp, Expr, Lit, Span};
use crate::equivalence::{equiv, equivalent};
use crate::oracle::TypeOracle;

verus! {

/// The outcome of a successful structural match: an expression of the shape
/// `recv.get(recv.len() - k)` on a sequence-typed receiver, with both
/// receiver occurrences provably the same value and `k` a literal offset
/// from the end, at least 1. It is built, immediately consumed to build a
/// diagnostic, and discarded; it only borrows the matched tree.
pub struct MatchResult<'a> {
    /// The receiver of the `get` call, the subject of the suggested rewrite.
    pub receiver: &'a Expr,
    /// The literal subtracted from the length; 1 denotes the last element.
    pub offset: u128,
    /// The source range of the whole `get` call.
    pub span: Span,
}

/// The structural pattern the matcher recognizes: `e` is a method call named
/// `get` with exactly one argument, its receiver's static type is a sequence
/// according to `oracle`, the argument is a subtraction whose left side is a
/// zero-argument `len` call on a receiver provably the same value as the
/// `get` receiver, and whose right side is an integer literal of at least 1.
pub open spec fn matches_shape(e: Expr, oracle: TypeOracle) -> bool {
    &&& e matches Expr::MethodCall { name, receiver, args, .. }
    &&& name@ == "get"@
    &&& args@.len() == 1
    &&& oracle.spec_is_sequence(receiver.spec_ty())
    &&& args@[0] matches Expr::Binary { op: BinOp::Sub, lhs, rhs, .. }
    &&& *lhs matches Expr::MethodCall { name: len_name, receiver: len_receiver, args: len_args, .. }
    &&& len_name@ == "len"@
    &&& len_args@.len() == 0
    &&& equiv(*receiver, *len_receiver)
    &&& *rhs matches Expr::Lit { lit: Lit::Int(k), .. }
    &&& k >= 1
}

/// The literal offset from the end that `e` subtracts from the length,
/// meaningful when [`matches_shape`] holds of `e`.
pub open spec fn spec_offset(e: Expr) -> u128 {
    match e {
        Expr::MethodCall { args, .. } => match args@[0] {
            Expr::Binary { rhs, .. } => match *rhs {
                Expr::Lit { lit: Lit::Int(k), .. } => k,
                _ => 0,
            },
            _ => 0,
        },
        _ => 0,
    }
}

/// The receiver of the `get` call, meaningful when [`matches_shape`] holds
/// of `e`.
pub open spec fn spec_receiver(e: Expr) -> Expr {
    match e {
        Expr::MethodCall { receiver, .. } => *receiver,
        _ => e,
    }
}

/// The rule reports `e`: the structural pattern holds and the offset is
/// exactly 1, the only case rewritable to a last-element accessor.
pub open spec fn fires(e: Expr, oracle: TypeOracle) -> bool {
    matches_shape(e, oracle) && spec_offset(e) == 1
}

/// Whether `name` spells `expected`.
fn name_is(name: &String, expected: &str) -> (r: bool)
    ensures
        r == (name@ == expected@),
{
    let e: String = expected.to_owned();
    *name == e
}

/// The structural matcher. Evaluates the predicates of [`matches_shape`] in
/// order, short-circuiting on the first failure: a failure is an ordinary
/// "no match", never an error. On a match, the result carries the `get`
/// receiver, the literal offset and the span of the whole call.
pub fn match_expr<'a>(e: &'a Expr, oracle: &TypeOracle) -> (r: Option<MatchResult<'a>>)
    ensures
        r is Some <==> matches_shape(*e, *oracle),
        r matches Some(m) ==> {
            &&& *m.receiver == spec_receiver(*e)
            &&& m.offset == spec_offset(*e)
            &&& m.offset >= 1
            &&& m.span == e.spec_span()
        },
{
    match e {
        Expr::MethodCall { name, receiver, args, span, .. } => {
            // A method call named "get" with exactly one argument.
            if !name_is(name, "get") {
                return None;
            }
            if args.len() != 1 {
                return None;
            }
            // The receiver's static type is a sequence.
            if !oracle.is_sequence_type(receiver) {
                return None;
            }
            // The argument is a subtraction.
            match &args[0] {
                Expr::Binary { op: BinOp::Sub, lhs, rhs, .. } => {
                    // Its left side is `recv.len()` for the same receiver.
                    match &**lhs {
                        Expr::MethodCall {
                            name: len_name,
                            receiver: len_receiver,
                            args: len_args,
                            ..
                        } => {
                            if !name_is(len_name, "len") {
                                return None;
                            }
                            if len_args.len() != 0 {
                                return None;
                            }
                            if !equivalent(receiver, len_receiver) {
                                return None;
                            }
                            // Its right side is an integer literal >= 1.
                            match &**rhs {
                                Expr::Lit { lit: Lit::Int(k), .. } => {
                                    if *k >= 1 {
                                        Some(MatchResult { receiver: &**receiver, offset: *k, span: *span })
                                    } else {
                                        None
                                    }
                                },
                                _ => None,
                            }
                        },
                        _ => None,
                    }
                },
                _ => None,
            }
        },
        _ => None,
    }
}

/// `e` is literally `<binding>.get(<binding>.len() - k)`: a `get` call with
/// one argument whose receiver is a use of the binding declared at `d1` with
/// static type `t`, the argument a subtraction whose left side is a
/// zero-argument `len` call on a use of the binding declared at `d2`, and
/// whose right side is the integer literal `k`. The bindings' spellings are
/// left entirely open.
pub open spec fn get_len_sub_on_bindings(e: Expr, d1: u64, d2: u64, t: u64, k: u128) -> bool {
    &&& e matches Expr::MethodCall { name, receiver, args, .. }
    &&& name@ == "get"@
    &&& args@.len() == 1
    &&& (*receiver) matches Expr::Path { decl, .. } && decl == d1
    &&& receiver.spec_ty() == t
    &&& args@[0] matches Expr::Binary { op: BinOp::Sub, lhs, rhs, .. }
    &&& *lhs matches Expr::MethodCall { name: len_name, receiver: len_receiver, args: len_args, .. }
    &&& len_name@ == "len"@
    &&& len_args@.len() == 0
    &&& (*len_receiver) matches Expr::Path { decl: len_decl, .. } && len_decl == d2
    &&& *rhs matches Expr::Lit { lit: Lit::Int(k2), .. } && k2 == k
}

/// Law: on a sequence-typed binding, `s.get(s.len() - 1)` where both
/// occurrences of `s` resolve to the same declaration is reported: the rule
/// fires, with offset 1, so the suggested rewrite is the binding's
/// last-element accessor.
pub proof fn lemma_same_binding_last_access_fires(e: Expr, oracle: TypeOracle, d: u64, t: u64)
    requires
        get_len_sub_on_bindings(e, d, d, t, 1),
        oracle.spec_is_sequence(t),
    ensures
        fires(e, oracle),
{
    assert(matches_shape(e, oracle));
}

/// Law: offset sensitivity — the same shape with a literal other than 1
/// never fires, under any oracle. Only an offset of exactly 1 is rewritable
/// to a last-element accessor.
pub proof fn lemma_other_offset_never_fires(
    e: Expr,
    oracle: TypeOracle,
    d1: u64,
    d2: u64,
    t: u64,
    k: u128,
)
    requires
        get_len_sub_on_bindings(e, d1, d2, t, k),
        k != 1,
    ensures
        !fires(e, oracle),
{
    assert(spec_offset(e) == k);
}

/// Law: declaration identity, not spelling, governs equivalence —
/// `x.get(y.len() - 1)` on bindings resolved to distinct declarations never
/// fires, under any oracle, even where `x` and `y` are spelled alike because
/// one shadows the other.
pub proof fn lemma_distinct_bindings_never_fire(
    e: Expr,
    oracle: TypeOracle,
    d1: u64,
    d2: u64,
    t: u64,
)
    requires
        get_len_sub_on_bindings(e, d1, d2, t, 1),
        d1 != d2,
    ensures
        !fires(e, oracle),
{
}

/// Law: type gating — the same shape on a receiver whose static type the
/// oracle does not call a sequence never fires, though the methods are
/// spelled `get` and `len`.
pub proof fn lemma_non_sequence_never_fires(
    e: Expr,
    oracle: TypeOracle,
    d1: u64,
    d2: u64,
    t: u64,
    k: u128,
)
    requires
        get_len_sub_on_bindings(e, d1, d2, t, k),
        !oracle.spec_is_sequence(t),
    ensures
        !fires(e, oracle),
{
}

/// Law: only a method call named `get` can fire. In particular a direct
/// indexing expression `v[v.len() - 1]` is out of the rule's pattern: its
/// panic-on-out-of-bounds semantics differ from the optional-returning
/// accessor, so it is never reported.
pub proof fn lemma_fires_only_on_get(e: Expr, oracle: TypeOracle)
    ensures
        fires(e, oracle) ==> (e matches Expr::MethodCall { name, .. } && name@ == "get"@),
        e is Index ==> !fires(e, oracle),
{
}

/// Law: the suggested rewrite is stable — a method call named `last`, which
/// is what the suggestion replaces the match with, never fires, so re-scanning
/// rewritten code yields no further report.
pub proof fn lemma_rewrite_is_stable(e: Expr, oracle: TypeOracle)
    requires
        e matches Expr::MethodCall { name, .. } && name@ == "last"@,
    ensures
        !fires(e, oracle),
{
    reveal_strlit("get");
    reveal_strlit("last");
    assert("get"@.len() == 3);
    assert("last"@.len() == 4);
}

} // verus!
