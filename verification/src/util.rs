use vstd::prelude::*;

verus! {

/// A value of one of two alternative types, used by the evaluator to carry
/// either an integer or a boolean result.
#[derive(Debug, PartialEq)]
pub enum Either<A, B> {
    Left(A),
    Right(B),
}

} // verus!
