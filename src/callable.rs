use vstd::prelude::*;
use crate::diagnostics::Message;
use crate::types::{Callable, Params, Type};

verus! {

/// The callable for `Callable[X, ret]` where `X` is a subscript evaluated to `t`:
/// `X` must be a `Concatenate` form.
pub open spec fn concatenate_callable(t: Type, ret: Type) -> Result<Callable, Message> {
    match t {
        Type::Concatenate(args, pspec) => Ok(
            Callable { params: Params::Concatenate(args, *pspec), ret },
        ),
        _ => Err(Message::ExpectedConcatenate(t)),
    }
}

pub fn callable_concatenate(t: Type, ret: Type) -> (r: Result<Callable, Message>)
    ensures
        r == concatenate_callable(t, ret),
{
    match t {
        Type::Concatenate(args, pspec) => Ok(Callable { params: Params::Concatenate(args, *pspec), ret }),
        other => Err(Message::ExpectedConcatenate(other)),
    }
}

} // verus!
