use vstd::prelude::*;
use ruff_text_size::TextRange;
use crate::types::{AnyStyle, SpecialForm, Type};

verus! {

#[verifier::external_type_specification]
#[verifier::external_body]
pub struct ExTextRange(TextRange);

/// Relies on ruff_text_size's derived `Clone` for `TextRange`, a `Copy` type of two
/// offsets: the clone equals the original.
pub assume_specification[ <TextRange as core::clone::Clone>::clone ](r: &TextRange) -> (c: TextRange)
    ensures
        c == *r,
;

/// How serious a diagnostic is.
#[derive(Clone, Copy, Debug, PartialEq, Eq)]
pub enum Severity {
    /// The annotation is wrong.
    Error,
    /// The annotation uses a construct that is not supported yet.
    Unimplemented,
}

/// What a diagnostic reports; turning it into text is left to the caller.
#[derive(Debug, PartialEq, Eq)]
pub enum Message {
    /// The form got a number of arguments it does not take (the number found).
    WrongArity(SpecialForm, usize),
    /// `...` stands where a tuple does not allow it.
    InvalidEllipsis,
    /// A tuple unpacks a second unbounded tuple.
    MultipleUnbounded,
    /// A starred tuple element is not a tuple.
    ExpectedTuple(Type),
    /// The first argument of `Callable` is a subscript that is not `Concatenate`.
    ExpectedConcatenate(Type),
    /// The first argument of `Callable` has an unsupported shape (its text).
    UnsupportedCallableParams(String),
    /// The form and arguments (their text) are not handled.
    Unhandled(SpecialForm, Vec<String>),
}

#[derive(Debug, PartialEq, Eq)]
pub struct Diagnostic {
    pub severity: Severity,
    pub range: TextRange,
    pub message: Message,
}

/// Records an error at `range` and returns the placeholder that stands for the
/// erroneous type.
pub fn report_error(errors: &mut Vec<Diagnostic>, range: TextRange, message: Message) -> (r: Type)
    ensures
        r == Type::Any(AnyStyle::Error),
        final(errors)@ == old(errors)@.push(
            Diagnostic { severity: Severity::Error, range, message },
        ),
{
    errors.push(Diagnostic { severity: Severity::Error, range, message });
    Type::any_error()
}

} // verus!
