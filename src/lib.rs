//! Resolution of subscripted special forms (`Optional[...]`, `Tuple[...]`,
//! `Callable[...]`, ...) into the type checker's type representation.

pub mod types;
pub mod diagnostics;
pub mod expr;
pub mod tuple;
pub mod solver;
pub mod callable;
pub mod special;
