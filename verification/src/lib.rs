//! A minimal statically-typed expression language with two sorts, integers
//! and booleans, closed under four binary operators: integer addition and
//! multiplication, boolean disjunction and conjunction.
//!
//! The heart of the crate is the syntax-directed type checker in
//! [`typecheck`], which assigns every expression one of the two types or
//! rejects it with a descriptive error. A companion evaluator of the same
//! recursive shape reduces an expression to a runtime value. The expression
//! model in [`expression`] also renders any tree, well-typed or not, to a
//! human-readable string for diagnostics.

pub mod expression;
pub mod typecheck;
pub mod util;
