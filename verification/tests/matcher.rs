use use_last::ast::{BinOp, Expr, Lit, Span};
use use_last::diagnostic::{build_diagnostic, Applicability};
use use_last::lint::{check_expr, register, Category, Severity};
use use_last::matcher::match_expr;
use use_last::oracle::TypeOracle;

const VEC_OF_INT: u64 = 3;
const USIZE_TY: u64 = 4;
const OPTION_TY: u64 = 5;
const GETTABLE_BUT_NOT_SEQUENCE: u64 = 6;

fn sp(lo: u64, hi: u64) -> Span {
    Span { lo, hi }
}

fn oracle() -> TypeOracle {
    TypeOracle { sequence_types: vec![VEC_OF_INT] }
}

fn binding(decl: u64, name: &str, lo: u64, ty: u64) -> Expr {
    Expr::Path { decl, name: name.to_string(), span: sp(lo, lo + name.len() as u64), ty }
}

fn len_call(receiver: Expr) -> Expr {
    Expr::MethodCall {
        name: "len".to_string(),
        receiver: Box::new(receiver),
        args: vec![],
        span: sp(17, 24),
        ty: USIZE_TY,
    }
}

fn sub(lhs: Expr, rhs: Expr) -> Expr {
    Expr::Binary { op: BinOp::Sub, lhs: Box::new(lhs), rhs: Box::new(rhs), span: sp(17, 28), ty: USIZE_TY }
}

fn int_lit(value: u128) -> Expr {
    Expr::Lit { lit: Lit::Int(value), span: sp(27, 28), ty: USIZE_TY }
}

fn get_call(receiver: Expr, arg: Expr) -> Expr {
    Expr::MethodCall {
        name: "get".to_string(),
        receiver: Box::new(receiver),
        args: vec![arg],
        span: sp(11, 29),
        ty: OPTION_TY,
    }
}

/// The expression of `let last = v.get(v.len() - 1);`, with both `v`s
/// resolved to declaration 7.
fn last_element_access() -> Expr {
    let receiver = binding(7, "v", 11, VEC_OF_INT);
    let len_receiver = binding(7, "v", 17, VEC_OF_INT);
    get_call(receiver, sub(len_call(len_receiver), int_lit(1)))
}

#[test]
fn reports_get_of_len_minus_one_on_a_sequence() {
    let d = check_expr(&last_element_access(), &oracle(), Some("v")).expect("should fire");
    assert_eq!(d.span, sp(11, 29));
    assert_eq!(d.message, "Use `v.last()` instead of `v.get(v.len() - 1)`");
    assert_eq!(d.replacement, "v.last()");
    assert_eq!(d.applicability, Applicability::MachineApplicable);
}

#[test]
fn match_result_carries_receiver_offset_and_span() {
    let e = last_element_access();
    let m = match_expr(&e, &oracle()).expect("should match");
    assert_eq!(m.offset, 1);
    assert_eq!(m.span, sp(11, 29));
    assert_eq!(m.receiver.span(), sp(11, 12));
    assert!(matches!(m.receiver, Expr::Path { decl: 7, .. }));
}

#[test]
fn offset_two_matches_the_shape_but_is_not_reported() {
    let receiver = binding(7, "v", 11, VEC_OF_INT);
    let len_receiver = binding(7, "v", 17, VEC_OF_INT);
    let e = get_call(receiver, sub(len_call(len_receiver), int_lit(2)));
    let m = match_expr(&e, &oracle()).expect("the shape still matches");
    assert_eq!(m.offset, 2);
    assert!(build_diagnostic(&m, Some("v")).is_none());
    assert!(check_expr(&e, &oracle(), Some("v")).is_none());
}

#[test]
fn offset_zero_does_not_match() {
    let receiver = binding(7, "v", 11, VEC_OF_INT);
    let len_receiver = binding(7, "v", 17, VEC_OF_INT);
    let e = get_call(receiver, sub(len_call(len_receiver), int_lit(0)));
    assert!(match_expr(&e, &oracle()).is_none());
    assert!(check_expr(&e, &oracle(), Some("v")).is_none());
}

#[test]
fn shadowed_binding_does_not_fire() {
    // `x.get(y.len() - 1)` where `x` and `y` are spelled alike but resolve
    // to distinct declarations.
    let receiver = binding(7, "v", 11, VEC_OF_INT);
    let len_receiver = binding(8, "v", 17, VEC_OF_INT);
    let e = get_call(receiver, sub(len_call(len_receiver), int_lit(1)));
    assert!(check_expr(&e, &oracle(), Some("v")).is_none());
}

#[test]
fn non_sequence_type_does_not_fire() {
    // A type with members spelled `get` and `len` that the host does not
    // call a sequence.
    let receiver = binding(7, "m", 11, GETTABLE_BUT_NOT_SEQUENCE);
    let len_receiver = binding(7, "m", 17, GETTABLE_BUT_NOT_SEQUENCE);
    let e = get_call(receiver, sub(len_call(len_receiver), int_lit(1)));
    assert!(check_expr(&e, &oracle(), Some("m")).is_none());
}

#[test]
fn rescanning_the_rewritten_code_finds_nothing() {
    let before = last_element_access();
    let d = check_expr(&before, &oracle(), Some("v")).expect("should fire");
    assert_eq!(d.replacement, "v.last()");
    // The rewritten code, `v.last()`, and its one subexpression.
    let receiver = binding(7, "v", 11, VEC_OF_INT);
    let after = Expr::MethodCall {
        name: "last".to_string(),
        receiver: Box::new(receiver),
        args: vec![],
        span: sp(11, 19),
        ty: OPTION_TY,
    };
    assert!(check_expr(&after, &oracle(), Some("v")).is_none());
    assert!(check_expr(&binding(7, "v", 11, VEC_OF_INT), &oracle(), Some("v")).is_none());
}

#[test]
fn direct_indexing_does_not_fire() {
    // `v[v.len() - 1]` panics out of bounds instead of returning an optional
    // value; it is out of this rule's pattern.
    let base = binding(7, "v", 11, VEC_OF_INT);
    let len_receiver = binding(7, "v", 13, VEC_OF_INT);
    let e = Expr::Index {
        base: Box::new(base),
        index: Box::new(sub(len_call(len_receiver), int_lit(1))),
        span: sp(11, 26),
        ty: USIZE_TY,
    };
    assert!(check_expr(&e, &oracle(), Some("v")).is_none());
}

#[test]
fn other_method_name_does_not_fire() {
    let receiver = binding(7, "v", 11, VEC_OF_INT);
    let len_receiver = binding(7, "v", 17, VEC_OF_INT);
    let mut e = get_call(receiver, sub(len_call(len_receiver), int_lit(1)));
    if let Expr::MethodCall { ref mut name, .. } = e {
        *name = "fetch".to_string();
    }
    assert!(check_expr(&e, &oracle(), Some("v")).is_none());
}

#[test]
fn two_arguments_do_not_fire() {
    let receiver = binding(7, "v", 11, VEC_OF_INT);
    let len_receiver = binding(7, "v", 17, VEC_OF_INT);
    let mut e = get_call(receiver, sub(len_call(len_receiver), int_lit(1)));
    if let Expr::MethodCall { ref mut args, .. } = e {
        args.push(int_lit(1));
    }
    assert!(check_expr(&e, &oracle(), Some("v")).is_none());
}

#[test]
fn argument_not_a_subtraction_does_not_fire() {
    let receiver = binding(7, "v", 11, VEC_OF_INT);
    let len_receiver = binding(7, "v", 17, VEC_OF_INT);
    let arg = Expr::Binary {
        op: BinOp::Add,
        lhs: Box::new(len_call(len_receiver)),
        rhs: Box::new(int_lit(1)),
        span: sp(17, 28),
        ty: USIZE_TY,
    };
    let e = get_call(receiver, arg);
    assert!(check_expr(&e, &oracle(), Some("v")).is_none());
}

#[test]
fn left_side_not_a_len_call_does_not_fire() {
    let receiver = binding(7, "v", 11, VEC_OF_INT);
    let n = binding(9, "n", 17, USIZE_TY);
    let e = get_call(receiver, sub(n, int_lit(1)));
    assert!(check_expr(&e, &oracle(), Some("v")).is_none());
}

#[test]
fn len_call_with_an_argument_does_not_fire() {
    let receiver = binding(7, "v", 11, VEC_OF_INT);
    let len_receiver = binding(7, "v", 17, VEC_OF_INT);
    let mut len = len_call(len_receiver);
    if let Expr::MethodCall { ref mut args, .. } = len {
        args.push(int_lit(0));
    }
    let e = get_call(receiver, sub(len, int_lit(1)));
    assert!(check_expr(&e, &oracle(), Some("v")).is_none());
}

#[test]
fn right_side_not_an_integer_literal_does_not_fire() {
    let receiver = binding(7, "v", 11, VEC_OF_INT);
    let len_receiver = binding(7, "v", 17, VEC_OF_INT);
    let one = binding(10, "one", 27, USIZE_TY);
    let e = get_call(receiver, sub(len_call(len_receiver), one));
    assert!(check_expr(&e, &oracle(), Some("v")).is_none());

    let receiver = binding(7, "v", 11, VEC_OF_INT);
    let len_receiver = binding(7, "v", 17, VEC_OF_INT);
    let bool_lit = Expr::Lit { lit: Lit::Bool(true), span: sp(27, 31), ty: 2 };
    let e = get_call(receiver, sub(len_call(len_receiver), bool_lit));
    assert!(check_expr(&e, &oracle(), Some("v")).is_none());
}

#[test]
fn placeholder_when_receiver_text_is_not_reprintable() {
    let e = last_element_access();
    let d = check_expr(&e, &oracle(), None).expect("should fire");
    assert_eq!(d.message, "Use `x.last()` instead of `x.get(x.len() - 1)`");
    assert_eq!(d.replacement, "x.last()");
    assert_eq!(d.applicability, Applicability::NeedsManualReview);
}

#[test]
fn oracle_answers_by_membership() {
    let o = oracle();
    assert!(o.is_sequence_type(&binding(7, "v", 0, VEC_OF_INT)));
    assert!(!o.is_sequence_type(&binding(7, "m", 0, GETTABLE_BUT_NOT_SEQUENCE)));
}

#[test]
fn registration_descriptor() {
    let d = register();
    assert_eq!(d.name, "use_last");
    assert_eq!(d.description, "Using `x.get(x.len() - 1)` when `x.last()` is correct and simpler");
    assert_eq!(d.category, Category::Complexity);
    assert_eq!(d.severity, Severity::Warn);
}
