use vstd::prelude::*;

verus! {

/// A half-open range of byte positions in the original source text.
#[derive(Clone, Copy, Debug, PartialEq, Eq, Structural)]
pub struct Span {
    pub lo: u64,
    pub hi: u64,
}

/// The binary operators the rule tells apart. `Other` stands for every
/// operator the rule does not inspect; two `Other` operators are never
/// considered equal, since nothing is known about them.
#[derive(Clone, Copy, Debug)]
pub enum BinOp {
    Add,
    Sub,
    Mul,
    Other,
}

/// A literal's payload. `Other` stands for the literal kinds the rule does
/// not inspect.
#[derive(Clone, Copy, Debug)]
pub enum Lit {
    Int(u128),
    Bool(bool),
    Other,
}

/// A closed, typed expression tree, the rule's view of one expression of the
/// analyzed program.
///
/// Every node carries the source range it covers and the identifier the host
/// assigned to its static type. A `Path` node is a use of a binding and
/// carries the identifier of the declaration it resolves to, beside its
/// spelling: two uses spell alike yet resolve apart under shadowing. `Other`
/// stands for every syntax kind the rule does not inspect.
pub enum Expr {
    MethodCall { name: String, receiver: Box<Expr>, args: Vec<Expr>, span: Span, ty: u64 },
    Binary { op: BinOp, lhs: Box<Expr>, rhs: Box<Expr>, span: Span, ty: u64 },
    Lit { lit: Lit, span: Span, ty: u64 },
    Path { decl: u64, name: String, span: Span, ty: u64 },
    Index { base: Box<Expr>, index: Box<Expr>, span: Span, ty: u64 },
    Other { span: Span, ty: u64 },
}

impl Expr {
    /// The source range this node covers.
    pub open spec fn spec_span(self) -> Span {
        match self {
            Expr::MethodCall { span, .. } => span,
            Expr::Binary { span, .. } => span,
            Expr::Lit { span, .. } => span,
            Expr::Path { span, .. } => span,
            Expr::Index { span, .. } => span,
            Expr::Other { span, .. } => span,
        }
    }

    /// The identifier of this node's static type.
    pub open spec fn spec_ty(self) -> u64 {
        match self {
            Expr::MethodCall { ty, .. } => ty,
            Expr::Binary { ty, .. } => ty,
            Expr::Lit { ty, .. } => ty,
            Expr::Path { ty, .. } => ty,
            Expr::Index { ty, .. } => ty,
            Expr::Other { ty, .. } => ty,
        }
    }

    /// The source range this node covers.
    pub fn span(&self) -> (s: Span)
        ensures
            s == self.spec_span(),
    {
        match self {
            Expr::MethodCall { span, .. } => *span,
            Expr::Binary { span, .. } => *span,
            Expr::Lit { span, .. } => *span,
            Expr::Path { span, .. } => *span,
            Expr::Index { span, .. } => *span,
            Expr::Other { span, .. } => *span,
        }
    }

    /// The identifier of this node's static type.
    pub fn ty(&self) -> (t: u64)
        ensures
            t == self.spec_ty(),
    {
        match self {
            Expr::MethodCall { ty, .. } => *ty,
            Expr::Binary { ty, .. } => *ty,
            Expr::Lit { ty, .. } => *ty,
            Expr::Path { ty, .. } => *ty,
            Expr::Index { ty, .. } => *ty,
            Expr::Other { ty, .. } => *ty,
        }
    }
}

} // verus!
