use typelang::expression::{Expr, Type};
use typelang::typecheck::{eval_t, typecheck};
use typelang::util::Either;

#[test]
fn literals_typecheck_to_their_sort() {
    assert_eq!(typecheck(&Expr::One), Ok(Type::IntType));
    assert_eq!(typecheck(&Expr::Zero), Ok(Type::IntType));
    assert_eq!(typecheck(&Expr::ETrue), Ok(Type::BoolType));
    assert_eq!(typecheck(&Expr::EFalse), Ok(Type::BoolType));
}

#[test]
fn typecheck_is_deterministic() {
    let e = Expr::And(
        Box::new(Expr::Or(Box::new(Expr::ETrue), Box::new(Expr::EFalse))),
        Box::new(Expr::One),
    );
    assert_eq!(typecheck(&e), typecheck(&e));
    let ok = Expr::Plus(Box::new(Expr::One), Box::new(Expr::Zero));
    assert_eq!(typecheck(&ok), typecheck(&ok));
}

#[test]
fn homogeneous_operands_succeed() {
    let add = Expr::Plus(Box::new(Expr::One), Box::new(Expr::Zero));
    assert_eq!(typecheck(&add), Ok(Type::IntType));
    let mult = Expr::Mult(Box::new(Expr::Zero), Box::new(Expr::One));
    assert_eq!(typecheck(&mult), Ok(Type::IntType));
    let or = Expr::Or(Box::new(Expr::EFalse), Box::new(Expr::EFalse));
    assert_eq!(typecheck(&or), Ok(Type::BoolType));
    let and = Expr::And(Box::new(Expr::ETrue), Box::new(Expr::ETrue));
    assert_eq!(typecheck(&and), Ok(Type::BoolType));
}

#[test]
fn cross_sort_operands_fail() {
    let add = Expr::Plus(Box::new(Expr::One), Box::new(Expr::ETrue));
    assert_eq!(
        typecheck(&add),
        Err("Plus expression expects int types on both sides! ".to_string())
    );
    let mult = Expr::Mult(Box::new(Expr::EFalse), Box::new(Expr::One));
    assert_eq!(
        typecheck(&mult),
        Err("Mult expression expects int types on both sides! ".to_string())
    );
    let or = Expr::Or(Box::new(Expr::ETrue), Box::new(Expr::Zero));
    assert_eq!(
        typecheck(&or),
        Err("Or expression expects bool types on both sides! ".to_string())
    );
    let and = Expr::And(Box::new(Expr::One), Box::new(Expr::Zero));
    assert_eq!(
        typecheck(&and),
        Err("And expression expects bool types on both sides! ".to_string())
    );
}

#[test]
fn left_failure_propagates_unchanged() {
    let failing_left = Expr::Plus(Box::new(Expr::One), Box::new(Expr::ETrue));
    let left_error = typecheck(&failing_left).unwrap_err();
    let whole = Expr::Or(
        Box::new(Expr::Plus(Box::new(Expr::One), Box::new(Expr::ETrue))),
        Box::new(Expr::And(Box::new(Expr::One), Box::new(Expr::Zero))),
    );
    assert_eq!(typecheck(&whole), Err(left_error));
}

#[test]
fn scenario_true_literal() {
    assert_eq!(typecheck(&Expr::ETrue), Ok(Type::BoolType));
}

#[test]
fn scenario_or_of_booleans() {
    let e = Expr::Or(Box::new(Expr::ETrue), Box::new(Expr::EFalse));
    assert_eq!(typecheck(&e), Ok(Type::BoolType));
}

#[test]
fn scenario_and_of_booleans() {
    let e = Expr::And(Box::new(Expr::EFalse), Box::new(Expr::EFalse));
    assert_eq!(typecheck(&e), Ok(Type::BoolType));
}

#[test]
fn scenario_nested_and_fails_on_inner_left() {
    let inner = Expr::And(Box::new(Expr::One), Box::new(Expr::Zero));
    let inner_error = typecheck(&inner).unwrap_err();
    let e = Expr::And(
        Box::new(Expr::And(Box::new(Expr::One), Box::new(Expr::Zero))),
        Box::new(Expr::Mult(Box::new(Expr::One), Box::new(Expr::One))),
    );
    assert_eq!(typecheck(&e), Err(inner_error));
}

#[test]
fn scenario_plus_with_boolean_right_fails() {
    let e = Expr::Plus(Box::new(Expr::One), Box::new(Expr::ETrue));
    assert!(typecheck(&e).is_err());
}

#[test]
fn scenario_or_with_integer_right_fails() {
    let e = Expr::Or(Box::new(Expr::EFalse), Box::new(Expr::One));
    assert!(typecheck(&e).is_err());
}

#[test]
fn eval_literals() {
    assert_eq!(eval_t(&Expr::One), Ok(Either::Left(1)));
    assert_eq!(eval_t(&Expr::Zero), Ok(Either::Left(0)));
    assert_eq!(eval_t(&Expr::ETrue), Ok(Either::Right(true)));
    assert_eq!(eval_t(&Expr::EFalse), Ok(Either::Right(false)));
}

#[test]
fn eval_addition() {
    let e = Expr::Plus(
        Box::new(Expr::Plus(Box::new(Expr::One), Box::new(Expr::One))),
        Box::new(Expr::One),
    );
    assert_eq!(eval_t(&e), Ok(Either::Left(3)));
}

#[test]
fn eval_multiplication_combines_left_and_right() {
    let two = Expr::Plus(Box::new(Expr::One), Box::new(Expr::One));
    let three = Expr::Plus(
        Box::new(Expr::Plus(Box::new(Expr::One), Box::new(Expr::One))),
        Box::new(Expr::One),
    );
    let e = Expr::Mult(Box::new(two), Box::new(three));
    assert_eq!(eval_t(&e), Ok(Either::Left(6)));
}

#[test]
fn eval_disjunction_and_conjunction() {
    let or = Expr::Or(Box::new(Expr::EFalse), Box::new(Expr::ETrue));
    assert_eq!(eval_t(&or), Ok(Either::Right(true)));
    let and = Expr::And(Box::new(Expr::ETrue), Box::new(Expr::EFalse));
    assert_eq!(eval_t(&and), Ok(Either::Right(false)));
}

#[test]
fn eval_rejects_cross_sort_operands() {
    let e = Expr::Plus(Box::new(Expr::One), Box::new(Expr::ETrue));
    assert_eq!(eval_t(&e), Err("Incompatible Types!".to_string()));
    let o = Expr::Or(Box::new(Expr::Zero), Box::new(Expr::ETrue));
    assert_eq!(eval_t(&o), Err("Incompatible Types!".to_string()));
}

#[test]
fn eval_left_failure_propagates_unchanged() {
    let e = Expr::And(
        Box::new(Expr::Or(Box::new(Expr::One), Box::new(Expr::ETrue))),
        Box::new(Expr::ETrue),
    );
    assert_eq!(eval_t(&e), Err("Incompatible Types!".to_string()));
}
