use vstd::prelude::*;

use crate::ast::Expr;

verus! {

/// The rule's window onto the host's type system. The rule never infers
/// types itself; for each candidate receiver it asks one boolean question,
/// "is this expression's static type a sequence?". The host's answer table
/// is carried here as the set of type identifiers it reports as sequence
/// types.
pub struct TypeOracle {
    /// The type identifiers the host reports as sequence types.
    pub sequence_types: Vec<u64>,
}

impl TypeOracle {
    /// Whether the host calls the type with identifier `t` a sequence type.
    pub open spec fn spec_is_sequence(self, t: u64) -> bool {
        self.sequence_types@.contains(t)
    }

    /// The one query the rule issues per candidate receiver: is the
    /// expression's static type a sequence?
    pub fn is_sequence_type(&self, e: &Expr) -> (r: bool)
        ensures
            r == self.spec_is_sequence(e.spec_ty()),
    {
        let t: u64 = e.ty();
        let n: usize = self.sequence_types.len();
        let mut i: usize = 0;
        while i < n
            invariant
                0 <= i <= n,
                n == self.sequence_types@.len(),
                t == e.spec_ty(),
                forall|j: int| 0 <= j < i ==> self.sequence_types@[j] != t,
            decreases n - i,
        {
            if self.sequence_types[i] == t {
                return true;
            }
            i += 1;
        }
        false
    }
}

} // verus!
