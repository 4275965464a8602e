use vstd::prelude::*;

verus! {

/// A literal value that a `Literal[...]` form can denote.
#[derive(Clone, Debug, PartialEq, Eq)]
pub enum Lit {
    Int(i64),
    Str(String),
    Bool(bool),
    /// A member of an enumeration class: the class and the member name.
    Enum(u64, String),
}

/// How a placeholder type came about.
#[derive(Clone, Copy, Debug, PartialEq, Eq)]
pub enum AnyStyle {
    /// Left after a reported error.
    Error,
    /// Left where a construct is not handled yet.
    Implicit,
}

#[derive(Clone, Copy, Debug, PartialEq, Eq)]
pub enum Required {
    Required,
    Optional,
}

/// One parameter of a callable.
#[derive(Debug, PartialEq, Eq)]
pub enum Param {
    PosOnly(Type, Required),
}

/// The parameter part of a callable type.
#[derive(Debug, PartialEq, Eq)]
pub enum Params {
    /// An explicit list of parameters.
    List(Vec<Param>),
    /// `...`: any arguments are accepted.
    Ellipsis,
    /// The parameters of a parameter specification.
    ParamSpec(Type),
    /// Leading positional arguments followed by a parameter specification.
    Concatenate(Vec<Type>, Type),
}

#[derive(Debug, PartialEq, Eq)]
pub struct Callable {
    pub params: Params,
    pub ret: Type,
}

/// The shapes a tuple type can take.
#[derive(Debug, PartialEq, Eq)]
pub enum Tuple {
    /// A fixed sequence of element types.
    Concrete(Vec<Type>),
    /// Any number of elements of one type.
    Unbounded(Box<Type>),
    /// A fixed prefix, one unbounded middle part, and a fixed suffix.
    Unpacked(Vec<Type>, Box<Type>, Vec<Type>),
}

/// The checker's type values, as far as special forms produce or inspect them.
#[derive(Debug, PartialEq, Eq)]
pub enum Type {
    NoneType,
    Any(AnyStyle),
    /// The class object itself, identified by the checker's class number.
    ClassDef(u64),
    /// An instance of a class.
    ClassType(u64),
    /// A type variable, type variable tuple or parameter specification.
    Quantified(u64),
    Literal(Lit),
    Union(Vec<Type>),
    Tuple(Tuple),
    Concatenate(Vec<Type>, Box<Type>),
    Callable(Box<Callable>),
    TypeGuard(Box<Type>),
    TypeIs(Box<Type>),
    Unpack(Box<Type>),
    /// Marks a value that denotes a type rather than a runtime value.
    TypeForm(Box<Type>),
}

impl Type {
    pub fn type_form(t: Type) -> (r: Type)
        ensures
            r == Type::TypeForm(Box::new(t)),
    {
        Type::TypeForm(Box::new(t))
    }

    pub fn any_error() -> (r: Type)
        ensures
            r == Type::Any(AnyStyle::Error),
    {
        Type::Any(AnyStyle::Error)
    }

    pub fn any_implicit() -> (r: Type)
        ensures
            r == Type::Any(AnyStyle::Implicit),
    {
        Type::Any(AnyStyle::Implicit)
    }
}

/// The recognised special-form constructors.
#[derive(Clone, Copy, Debug, PartialEq, Eq)]
pub enum SpecialForm {
    Annotated,
    Callable,
    Concatenate,
    Final,
    Generic,
    Literal,
    LiteralString,
    Never,
    NoReturn,
    NotRequired,
    Optional,
    Protocol,
    ReadOnly,
    Required,
    SelfType,
    Tuple,
    Type,
    TypeAlias,
    TypeGuard,
    TypeIs,
    Union,
    Unpack,
}

} // verus!
