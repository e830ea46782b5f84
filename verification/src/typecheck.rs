use vstd::prelude::*;
use crate::expression::{Expr, Type};
use crate::util::Either;

verus! {

/// Error message reported when an addition has a non-integer operand.
pub open spec fn plus_err_msg() -> Seq<char> {
    "Plus expression expects int types on both sides! "@
}

/// Error message reported when a multiplication has a non-integer operand.
pub open spec fn mult_err_msg() -> Seq<char> {
    "Mult expression expects int types on both sides! "@
}

/// Error message reported when a disjunction has a non-boolean operand.
pub open spec fn or_err_msg() -> Seq<char> {
    "Or expression expects bool types on both sides! "@
}

/// Error message reported when a conjunction has a non-boolean operand.
pub open spec fn and_err_msg() -> Seq<char> {
    "And expression expects bool types on both sides! "@
}

/// The typing judgment of the language: literals have their trivial type, a
/// binary node is typed strictly after its operands (left first, then right),
/// a left operand's failure propagates unchanged without the right operand
/// being considered, and a node whose two operands both type-check is typed
/// only when both carry the operator's required sort.
pub open spec fn typecheck_spec(e: Expr) -> Result<Type, Seq<char>>
    decreases e,
{
    match e {
        Expr::One => Ok(Type::IntType),
        Expr::Zero => Ok(Type::IntType),
        Expr::ETrue => Ok(Type::BoolType),
        Expr::EFalse => Ok(Type::BoolType),
        Expr::Plus(l, r) => check_binop(typecheck_spec(*l), typecheck_spec(*r), Type::IntType, plus_err_msg()),
        Expr::Mult(l, r) => check_binop(typecheck_spec(*l), typecheck_spec(*r), Type::IntType, mult_err_msg()),
        Expr::Or(l, r) => check_binop(typecheck_spec(*l), typecheck_spec(*r), Type::BoolType, or_err_msg()),
        Expr::And(l, r) => check_binop(typecheck_spec(*l), typecheck_spec(*r), Type::BoolType, and_err_msg()),
    }
}

/// Combines the operand judgments of one binary node: the left failure wins,
/// then the right failure, and two successes are accepted exactly when both
/// operands carry the operator's required sort.
pub open spec fn check_binop(
    l: Result<Type, Seq<char>>,
    r: Result<Type, Seq<char>>,
    required: Type,
    msg: Seq<char>,
) -> Result<Type, Seq<char>> {
    match (l, r) {
        (Err(m), _) => Err(m),
        (Ok(_), Err(m)) => Err(m),
        (Ok(lt), Ok(rt)) => if lt == required && rt == required {
            Ok(required)
        } else {
            Err(msg)
        },
    }
}

/// `r` is the outcome that the typing judgment prescribes for `e`: the same
/// success or failure, the same type on success, and the same message on
/// failure.
pub open spec fn typecheck_matches(e: Expr, r: Result<Type, String>) -> bool {
    match typecheck_spec(e) {
        Ok(t) => r matches Ok(rt) && rt == t,
        Err(m) => r matches Err(s) && s@ == m,
    }
}

/// Assigns the expression its type, or rejects it with a message naming the
/// operator whose constraint was violated. A pure function of its input:
/// post-order recursion, left operand first, fail-fast on the first failure.
pub fn typecheck(expr: &Expr) -> (r: Result<Type, String>)
    ensures
        typecheck_matches(*expr, r),
    decreases *expr,
{
    match expr {
        Expr::One => Ok(Type::IntType),
        Expr::Zero => Ok(Type::IntType),
        Expr::ETrue => Ok(Type::BoolType),
        Expr::EFalse => Ok(Type::BoolType),
        Expr::Plus(e1, e2) => {
            let r1 = match typecheck(e1) {
                Ok(t) => t,
                Err(m) => {
                    return Err(m);
                },
            };
            let r2 = match typecheck(e2) {
                Ok(t) => t,
                Err(m) => {
                    return Err(m);
                },
            };
            match (r1, r2) {
                (Type::IntType, Type::IntType) => Ok(Type::IntType),
                _ => Err("Plus expression expects int types on both sides! ".to_owned()),
            }
        },
        Expr::Mult(e1, e2) => {
            let r1 = match typecheck(e1) {
                Ok(t) => t,
                Err(m) => {
                    return Err(m);
                },
            };
            let r2 = match typecheck(e2) {
                Ok(t) => t,
                Err(m) => {
                    return Err(m);
                },
            };
            match (r1, r2) {
                (Type::IntType, Type::IntType) => Ok(Type::IntType),
                _ => Err("Mult expression expects int types on both sides! ".to_owned()),
            }
        },
        Expr::Or(e1, e2) => {
            let r1 = match typecheck(e1) {
                Ok(t) => t,
                Err(m) => {
                    return Err(m);
                },
            };
            let r2 = match typecheck(e2) {
                Ok(t) => t,
                Err(m) => {
                    return Err(m);
                },
            };
            match (r1, r2) {
                (Type::BoolType, Type::BoolType) => Ok(Type::BoolType),
                _ => Err("Or expression expects bool types on both sides! ".to_owned()),
            }
        },
        Expr::And(e1, e2) => {
            let r1 = match typecheck(e1) {
                Ok(t) => t,
                Err(m) => {
                    return Err(m);
                },
            };
            let r2 = match typecheck(e2) {
                Ok(t) => t,
                Err(m) => {
                    return Err(m);
                },
            };
            match (r1, r2) {
                (Type::BoolType, Type::BoolType) => Ok(Type::BoolType),
                _ => Err("And expression expects bool types on both sides! ".to_owned()),
            }
        },
    }
}

/// Error message reported when an evaluation meets an operand of the wrong
/// sort.
pub open spec fn incompatible_msg() -> Seq<char> {
    "Incompatible Types!"@
}

/// The reduction judgment of the language, over unbounded integers: literals
/// reduce to their fixed values, a binary node reduces its operands left
/// first, a left failure propagates unchanged, and a node whose two operands
/// both reduce yields a value exactly when both carry the operator's required
/// sort — the sum or product for the integer operators, the disjunction or
/// conjunction for the boolean ones.
pub open spec fn eval_spec(e: Expr) -> Result<Either<int, bool>, Seq<char>>
    decreases e,
{
    match e {
        Expr::One => Ok(Either::Left(1)),
        Expr::Zero => Ok(Either::Left(0)),
        Expr::ETrue => Ok(Either::Right(true)),
        Expr::EFalse => Ok(Either::Right(false)),
        Expr::Plus(l, r) => match (eval_spec(*l), eval_spec(*r)) {
            (Err(m), _) => Err(m),
            (Ok(_), Err(m)) => Err(m),
            (Ok(Either::Left(a)), Ok(Either::Left(b))) => Ok(Either::Left(a + b)),
            _ => Err(incompatible_msg()),
        },
        Expr::Mult(l, r) => match (eval_spec(*l), eval_spec(*r)) {
            (Err(m), _) => Err(m),
            (Ok(_), Err(m)) => Err(m),
            (Ok(Either::Left(a)), Ok(Either::Left(b))) => Ok(Either::Left(a * b)),
            _ => Err(incompatible_msg()),
        },
        Expr::Or(l, r) => match (eval_spec(*l), eval_spec(*r)) {
            (Err(m), _) => Err(m),
            (Ok(_), Err(m)) => Err(m),
            (Ok(Either::Right(a)), Ok(Either::Right(b))) => Ok(Either::Right(a || b)),
            _ => Err(incompatible_msg()),
        },
        Expr::And(l, r) => match (eval_spec(*l), eval_spec(*r)) {
            (Err(m), _) => Err(m),
            (Ok(_), Err(m)) => Err(m),
            (Ok(Either::Right(a)), Ok(Either::Right(b))) => Ok(Either::Right(a && b)),
            _ => Err(incompatible_msg()),
        },
    }
}

/// Every integer computed while reducing `e` fits the machine integer that
/// the evaluator returns. Recursion depth is caller-controlled and so is the
/// magnitude of intermediate sums and products; this bound is the one demand
/// the machine makes on the evaluator's input.
pub open spec fn eval_in_bounds(e: Expr) -> bool
    decreases e,
{
    match e {
        Expr::One => true,
        Expr::Zero => true,
        Expr::ETrue => true,
        Expr::EFalse => true,
        Expr::Plus(l, r) => eval_in_bounds(*l) && eval_in_bounds(*r) && (match (
            eval_spec(*l),
            eval_spec(*r),
        ) {
            (Ok(Either::Left(a)), Ok(Either::Left(b))) => i32::MIN <= a + b <= i32::MAX,
            _ => true,
        }),
        Expr::Mult(l, r) => eval_in_bounds(*l) && eval_in_bounds(*r) && (match (
            eval_spec(*l),
            eval_spec(*r),
        ) {
            (Ok(Either::Left(a)), Ok(Either::Left(b))) => i32::MIN <= a * b <= i32::MAX,
            _ => true,
        }),
        Expr::Or(l, r) => eval_in_bounds(*l) && eval_in_bounds(*r),
        Expr::And(l, r) => eval_in_bounds(*l) && eval_in_bounds(*r),
    }
}

/// `r` is the outcome that the reduction judgment prescribes for `e`: the
/// same success or failure, the same value on success, and the same message
/// on failure.
pub open spec fn eval_matches(e: Expr, r: Result<Either<i32, bool>, String>) -> bool {
    match eval_spec(e) {
        Ok(Either::Left(i)) => r matches Ok(Either::Left(v)) && v as int == i,
        Ok(Either::Right(b)) => r matches Ok(Either::Right(v)) && v == b,
        Err(m) => r matches Err(s) && s@ == m,
    }
}

/// Reduces the expression to a runtime value — an integer for the arithmetic
/// sort, a boolean for the logical one — or rejects it when an operand
/// reduces to the wrong sort. Same traversal shape as [`typecheck`]:
/// post-order, left operand first, fail-fast on the first failure.
pub fn eval_t(expr: &Expr) -> (r: Result<Either<i32, bool>, String>)
    requires
        eval_in_bounds(*expr),
    ensures
        eval_matches(*expr, r),
    decreases *expr,
{
    match expr {
        Expr::One => Ok(Either::Left(1)),
        Expr::Zero => Ok(Either::Left(0)),
        Expr::ETrue => Ok(Either::Right(true)),
        Expr::EFalse => Ok(Either::Right(false)),
        Expr::Plus(e1, e2) => {
            let r1 = match eval_t(e1) {
                Ok(v) => v,
                Err(m) => {
                    return Err(m);
                },
            };
            let r2 = match eval_t(e2) {
                Ok(v) => v,
                Err(m) => {
                    return Err(m);
                },
            };
            match (r1, r2) {
                (Either::Left(a), Either::Left(b)) => Ok(Either::Left(a + b)),
                _ => Err("Incompatible Types!".to_owned()),
            }
        },
        Expr::Mult(e1, e2) => {
            let r1 = match eval_t(e1) {
                Ok(v) => v,
                Err(m) => {
                    return Err(m);
                },
            };
            let r2 = match eval_t(e2) {
                Ok(v) => v,
                Err(m) => {
                    return Err(m);
                },
            };
            match (r1, r2) {
                (Either::Left(a), Either::Left(b)) => Ok(Either::Left(a * b)),
                _ => Err("Incompatible Types!".to_owned()),
            }
        },
        Expr::Or(e1, e2) => {
            let r1 = match eval_t(e1) {
                Ok(v) => v,
                Err(m) => {
                    return Err(m);
                },
            };
            let r2 = match eval_t(e2) {
                Ok(v) => v,
                Err(m) => {
                    return Err(m);
                },
            };
            match (r1, r2) {
                (Either::Right(a), Either::Right(b)) => Ok(Either::Right(a || b)),
                _ => Err("Incompatible Types!".to_owned()),
            }
        },
        Expr::And(e1, e2) => {
            let r1 = match eval_t(e1) {
                Ok(v) => v,
                Err(m) => {
                    return Err(m);
                },
            };
            let r2 = match eval_t(e2) {
                Ok(v) => v,
                Err(m) => {
                    return Err(m);
                },
            };
            match (r1, r2) {
                (Either::Right(a), Either::Right(b)) => Ok(Either::Right(a && b)),
                _ => Err("Incompatible Types!".to_owned()),
            }
        },
    }
}

/// `e` is a binary node: one of the four operators.
pub open spec fn is_binop(e: Expr) -> bool {
    e is Plus || e is Mult || e is Or || e is And
}

/// The left operand of a binary node.
pub open spec fn left_operand(e: Expr) -> Expr
    recommends
        is_binop(e),
{
    match e {
        Expr::Plus(l, _) => *l,
        Expr::Mult(l, _) => *l,
        Expr::Or(l, _) => *l,
        Expr::And(l, _) => *l,
        _ => e,
    }
}

/// The right operand of a binary node.
pub open spec fn right_operand(e: Expr) -> Expr
    recommends
        is_binop(e),
{
    match e {
        Expr::Plus(_, r) => *r,
        Expr::Mult(_, r) => *r,
        Expr::Or(_, r) => *r,
        Expr::And(_, r) => *r,
        _ => e,
    }
}

/// The sort an operator requires of both its operands: the integer type for
/// addition and multiplication, the boolean type for disjunction and
/// conjunction.
pub open spec fn operand_type(e: Expr) -> Type
    recommends
        is_binop(e),
{
    match e {
        Expr::Plus(_, _) => Type::IntType,
        Expr::Mult(_, _) => Type::IntType,
        _ => Type::BoolType,
    }
}

/// Every literal has its trivial type: the integer literals carry the integer
/// type and the boolean literals the boolean type, and no literal is ever
/// rejected.
pub proof fn lemma_literal_types()
    ensures
        typecheck_spec(Expr::One) == Ok::<Type, Seq<char>>(Type::IntType),
        typecheck_spec(Expr::Zero) == Ok::<Type, Seq<char>>(Type::IntType),
        typecheck_spec(Expr::ETrue) == Ok::<Type, Seq<char>>(Type::BoolType),
        typecheck_spec(Expr::EFalse) == Ok::<Type, Seq<char>>(Type::BoolType),
{
}

/// Type checking is deterministic: any two results that [`typecheck`]'s
/// contract allows for the same expression are equal — the same success or
/// failure, the same type, and character for character the same message.
pub proof fn lemma_typecheck_deterministic(
    e: Expr,
    r1: Result<Type, String>,
    r2: Result<Type, String>,
)
    requires
        typecheck_matches(e, r1),
        typecheck_matches(e, r2),
    ensures
        r1 is Ok <==> r2 is Ok,
        r1 is Ok ==> r1->Ok_0 == r2->Ok_0,
        r1 is Err ==> r1->Err_0@ == r2->Err_0@,
{
}

/// Homogeneity: a binary node type-checks if and only if both of its operands
/// type-check to the operator's required sort — integers for `Plus` and
/// `Mult`, booleans for `Or` and `And` — and the node then carries that very
/// sort itself. Any cross-sort operand is rejected.
pub proof fn lemma_binop_homogeneous(e: Expr)
    requires
        is_binop(e),
    ensures
        typecheck_spec(e) is Ok <==> (typecheck_spec(left_operand(e)) == Ok::<Type, Seq<char>>(
            operand_type(e),
        ) && typecheck_spec(right_operand(e)) == Ok::<Type, Seq<char>>(operand_type(e))),
        typecheck_spec(e) is Ok ==> typecheck_spec(e) == Ok::<Type, Seq<char>>(operand_type(e)),
{
}

/// Fail-fast: when the left operand of a binary node is rejected, the node is
/// rejected with that very failure, whatever the right operand looks like.
pub proof fn lemma_fail_fast(e: Expr)
    requires
        is_binop(e),
        typecheck_spec(left_operand(e)) is Err,
    ensures
        typecheck_spec(e) == typecheck_spec(left_operand(e)),
{
}

/// Type soundness: a well-typed expression reduces without failure, to a
/// value of the very sort the checker assigned — an integer under the integer
/// type, a boolean under the boolean type.
pub proof fn lemma_type_soundness(e: Expr)
    ensures
        typecheck_spec(e) == Ok::<Type, Seq<char>>(Type::IntType) ==> (eval_spec(e) matches Ok(v)
            && v is Left),
        typecheck_spec(e) == Ok::<Type, Seq<char>>(Type::BoolType) ==> (eval_spec(e) matches Ok(v)
            && v is Right),
    decreases e,
{
    match e {
        Expr::Plus(l, r) => {
            lemma_type_soundness(*l);
            lemma_type_soundness(*r);
        },
        Expr::Mult(l, r) => {
            lemma_type_soundness(*l);
            lemma_type_soundness(*r);
        },
        Expr::Or(l, r) => {
            lemma_type_soundness(*l);
            lemma_type_soundness(*r);
        },
        Expr::And(l, r) => {
            lemma_type_soundness(*l);
            lemma_type_soundness(*r);
        },
        _ => {},
    }
}

} // verus!
