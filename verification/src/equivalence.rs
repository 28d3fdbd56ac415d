use vstd::prelude::*;

use crate::ast::{BinOp, Expr, Lit};

verus! {

/// Two operators provably agree only when both are a known kind and the same
/// one; nothing is known about an `Other` operator, so it agrees with none.
pub open spec fn binop_equal(a: BinOp, b: BinOp) -> bool {
    match (a, b) {
        (BinOp::Add, BinOp::Add) => true,
        (BinOp::Sub, BinOp::Sub) => true,
        (BinOp::Mul, BinOp::Mul) => true,
        _ => false,
    }
}

/// Two literals provably agree only when both are a known kind and carry the
/// same value; an `Other` literal agrees with none.
pub open spec fn lit_equal(a: Lit, b: Lit) -> bool {
    match (a, b) {
        (Lit::Int(x), Lit::Int(y)) => x == y,
        (Lit::Bool(x), Lit::Bool(y)) => x == y,
        _ => false,
    }
}

/// `a` and `b` provably denote the same runtime value, judged structurally:
/// the same node kind with recursively equivalent children, where a use of a
/// binding compares by the declaration it resolves to, never by its
/// spelling. Any uncertainty — in particular every `Other` node — resolves
/// to "not equivalent": a missed report is acceptable, a wrong rewrite is
/// not.
pub open spec fn equiv(a: Expr, b: Expr) -> bool
    decreases a,
{
    match (a, b) {
        (Expr::Path { decl: d1, .. }, Expr::Path { decl: d2, .. }) => d1 == d2,
        (Expr::Lit { lit: l1, .. }, Expr::Lit { lit: l2, .. }) => lit_equal(l1, l2),
        (
            Expr::MethodCall { name: n1, receiver: r1, args: a1, .. },
            Expr::MethodCall { name: n2, receiver: r2, args: a2, .. },
        ) => {
            &&& n1@ == n2@
            &&& equiv(*r1, *r2)
            &&& a1@.len() == a2@.len()
            &&& forall|i: int| 0 <= i < a1@.len() ==> equiv(#[trigger] a1@[i], a2@[i])
        },
        (
            Expr::Binary { op: o1, lhs: l1, rhs: r1, .. },
            Expr::Binary { op: o2, lhs: l2, rhs: r2, .. },
        ) => binop_equal(o1, o2) && equiv(*l1, *l2) && equiv(*r1, *r2),
        (
            Expr::Index { base: b1, index: i1, .. },
            Expr::Index { base: b2, index: i2, .. },
        ) => equiv(*b1, *b2) && equiv(*i1, *i2),
        _ => false,
    }
}

/// Whether two operators provably agree; see [`binop_equal`].
fn binop_eq(a: &BinOp, b: &BinOp) -> (r: bool)
    ensures
        r == binop_equal(*a, *b),
{
    match (a, b) {
        (BinOp::Add, BinOp::Add) => true,
        (BinOp::Sub, BinOp::Sub) => true,
        (BinOp::Mul, BinOp::Mul) => true,
        _ => false,
    }
}

/// Whether two literals provably agree; see [`lit_equal`].
fn lit_eq(a: &Lit, b: &Lit) -> (r: bool)
    ensures
        r == lit_equal(*a, *b),
{
    match (a, b) {
        (Lit::Int(x), Lit::Int(y)) => *x == *y,
        (Lit::Bool(x), Lit::Bool(y)) => *x == *y,
        _ => false,
    }
}

/// Decides [`equiv`]: whether `a` and `b` provably denote the same runtime
/// value. Recursive structural comparison, conservative on every node kind
/// it does not know.
#[verifier::loop_isolation(false)]
pub fn equivalent(a: &Expr, b: &Expr) -> (r: bool)
    ensures
        r == equiv(*a, *b),
    decreases *a,
{
    match (a, b) {
        (Expr::Path { decl: d1, .. }, Expr::Path { decl: d2, .. }) => *d1 == *d2,
        (Expr::Lit { lit: l1, .. }, Expr::Lit { lit: l2, .. }) => lit_eq(l1, l2),
        (
            Expr::MethodCall { name: n1, receiver: r1, args: a1, .. },
            Expr::MethodCall { name: n2, receiver: r2, args: a2, .. },
        ) => {
            if !(*n1 == *n2) {
                return false;
            }
            if !equivalent(r1, r2) {
                return false;
            }
            if a1.len() != a2.len() {
                return false;
            }
            let n: usize = a1.len();
            let mut i: usize = 0;
            while i < n
                invariant
                    0 <= i <= n,
                    n == a1@.len(),
                    a1@.len() == a2@.len(),
                    forall|j: int| 0 <= j < i ==> equiv(#[trigger] a1@[j], a2@[j]),
                decreases n - i,
            {
                if !equivalent(&a1[i], &a2[i]) {
                    return false;
                }
                i += 1;
            }
            true
        },
        (
            Expr::Binary { op: o1, lhs: l1, rhs: r1, .. },
            Expr::Binary { op: o2, lhs: l2, rhs: r2, .. },
        ) => binop_eq(o1, o2) && equivalent(l1, l2) && equivalent(r1, r2),
        (
            Expr::Index { base: b1, index: i1, .. },
            Expr::Index { base: b2, index: i2, .. },
        ) => equivalent(b1, b2) && equivalent(i1, i2),
        _ => false,
    }
}

} // verus!
