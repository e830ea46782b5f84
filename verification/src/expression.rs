use vstd::prelude::*;
use vstd::string::StringExecFns;

verus! {

/// An expression of the language: an immutable, finite tree whose leaves are
/// the integer literals one and zero and the boolean literals true and false,
/// and whose inner nodes are the four binary operators. Composite nodes own
/// their two children; no type is stored in the tree — a type is derived by
/// the checker, never recorded.
#[derive(Debug, PartialEq)]
pub enum Expr {
    One,
    Zero,
    ETrue,
    EFalse,
    Plus(Box<Expr>, Box<Expr>),
    Mult(Box<Expr>, Box<Expr>),
    Or(Box<Expr>, Box<Expr>),
    And(Box<Expr>, Box<Expr>),
}

/// The type of an expression: the language has exactly two sorts.
#[derive(Debug, PartialEq, Eq, Clone, Copy)]
pub enum Type {
    IntType,
    BoolType,
}

/// The rendering of an expression: literals render as their surface form and
/// a binary node renders as `(<left> <symbol> <right>)` with symbols `+`,
/// `*`, `||`, `&&`. Rendering is purely structural: it is defined for every
/// expression, ill-typed ones included, and never consults the type checker.
pub open spec fn render_spec(e: Expr) -> Seq<char>
    decreases e,
{
    match e {
        Expr::One => "1"@,
        Expr::Zero => "0"@,
        Expr::ETrue => "true"@,
        Expr::EFalse => "false"@,
        Expr::Plus(l, r) => "("@ + render_spec(*l) + " + "@ + render_spec(*r) + ")"@,
        Expr::Mult(l, r) => "("@ + render_spec(*l) + " * "@ + render_spec(*r) + ")"@,
        Expr::Or(l, r) => "("@ + render_spec(*l) + " || "@ + render_spec(*r) + ")"@,
        Expr::And(l, r) => "("@ + render_spec(*l) + " && "@ + render_spec(*r) + ")"@,
    }
}

/// The display name of a type.
pub open spec fn type_name_spec(t: Type) -> Seq<char> {
    match t {
        Type::IntType => "IntType"@,
        Type::BoolType => "BoolType"@,
    }
}

impl Expr {
    /// Renders the expression for diagnostics. Total and deterministic:
    /// every tree, well-typed or not, has exactly one rendering.
    pub fn render(&self) -> (r: String)
        ensures
            r@ == render_spec(*self),
        decreases *self,
    {
        match self {
            Expr::One => "1".to_owned(),
            Expr::Zero => "0".to_owned(),
            Expr::ETrue => "true".to_owned(),
            Expr::EFalse => "false".to_owned(),
            Expr::Plus(l, r) => {
                let mut s = "(".to_owned();
                s.append(l.render().as_str());
                s.append(" + ");
                s.append(r.render().as_str());
                s.append(")");
                s
            },
            Expr::Mult(l, r) => {
                let mut s = "(".to_owned();
                s.append(l.render().as_str());
                s.append(" * ");
                s.append(r.render().as_str());
                s.append(")");
                s
            },
            Expr::Or(l, r) => {
                let mut s = "(".to_owned();
                s.append(l.render().as_str());
                s.append(" || ");
                s.append(r.render().as_str());
                s.append(")");
                s
            },
            Expr::And(l, r) => {
                let mut s = "(".to_owned();
                s.append(l.render().as_str());
                s.append(" && ");
                s.append(r.render().as_str());
                s.append(")");
                s
            },
        }
    }
}

impl Type {
    /// The display name of the type, `"IntType"` or `"BoolType"`.
    pub fn name(&self) -> (r: String)
        ensures
            r@ == type_name_spec(*self),
    {
        match self {
            Type::IntType => "IntType".to_owned(),
            Type::BoolType => "BoolType".to_owned(),
        }
    }
}

} // verus!
