use vstd::prelude::*;
use ruff_text_size::TextRange;

verus! {

/// The syntactic shape of an argument of a special form, as far as resolution
/// looks at it.
#[derive(Debug, PartialEq, Eq)]
pub enum ExprShape {
    /// The `...` literal.
    Ellipsis,
    /// `*value`; the starred value is held.
    Starred(Box<ArgExpr>),
    /// A list literal `[a, b, ...]`; its elements are held.
    List(Vec<ArgExpr>),
    /// A bare name.
    Name,
    /// A subscript `x[...]`.
    Subscript,
    /// Anything else.
    Other,
}

/// An argument expression of a special form. `node` identifies the syntax node
/// for the evaluator, which turns it into a type; `text` is its rendering in
/// messages.
#[derive(Debug, PartialEq, Eq)]
pub struct ArgExpr {
    pub node: u64,
    pub range: TextRange,
    pub text: String,
    pub shape: ExprShape,
}

/// The rendering of each argument, in order.
pub open spec fn texts_of(args: Seq<ArgExpr>) -> Seq<String> {
    args.map_values(|a: ArgExpr| a.text)
}

} // verus!
