use vstd::prelude::*;
use crate::diagnostics::Diagnostic;
use crate::expr::ArgExpr;
use crate::types::Type;

verus! {

/// The surrounding checker, which special-form resolution calls back into. Each
/// of its answers is a function of the checker and the question asked: the spec
/// functions name those answers, and each method returns the one it names.
pub trait Solver {
    /// What an expression evaluates to as a type annotation.
    spec fn untype_of(&self, x: ArgExpr) -> Type;

    /// What an expression evaluates to as a value or type.
    spec fn expr_of(&self, x: ArgExpr) -> Type;

    /// The literal type of a literal argument.
    spec fn literal_of(&self, x: ArgExpr) -> Type;

    /// The diagnostics that evaluating an expression as a type annotation reports.
    spec fn untype_diags_of(&self, x: ArgExpr) -> Seq<Diagnostic>;

    /// The diagnostics that evaluating an expression as a value or type reports.
    spec fn expr_diags_of(&self, x: ArgExpr) -> Seq<Diagnostic>;

    /// The diagnostics that building the literal type of an argument reports.
    spec fn literal_diags_of(&self, x: ArgExpr) -> Seq<Diagnostic>;

    /// The type bound to a name.
    spec fn binding_of(&self, name: Seq<char>) -> Type;

    /// The literal type of a member of an enumeration class.
    spec fn enum_member_of(&self, class: u64, member: Seq<char>) -> Option<Type>;

    /// The union of a sequence of types.
    spec fn unions_of(&self, xs: Seq<Type>) -> Type;

    /// Evaluates an expression as a type annotation (nested special forms included).
    fn expr_untype(&self, x: &ArgExpr, errors: &mut Vec<Diagnostic>) -> (r: Type)
        ensures
            r == self.untype_of(*x),
            final(errors)@ == old(errors)@ + self.untype_diags_of(*x),
    ;

    /// Evaluates an expression as a value or type, with no expected type.
    fn expr(&self, x: &ArgExpr, errors: &mut Vec<Diagnostic>) -> (r: Type)
        ensures
            r == self.expr_of(*x),
            final(errors)@ == old(errors)@ + self.expr_diags_of(*x),
    ;

    /// Builds the literal type of one literal argument. `enums` resolves the
    /// `EnumClass.MEMBER` references that it meets: given the class name and the
    /// member name, it returns the member's literal type, if there is one: the
    /// class name must be bound to a class object, on which the member is looked up.
    fn literal<F: Fn(&String, &String) -> Option<Type>>(
        &self,
        x: &ArgExpr,
        enums: &F,
        errors: &mut Vec<Diagnostic>,
    ) -> (r: Type)
        requires
            forall|n: &String, m: &String| #[trigger] enums.requires((n, m)),
            forall|n: &String, m: &String, o: Option<Type>| #[trigger] enums.ensures((n, m), o)
                ==> o == match class_def_of(self.binding_of(n@)) {
                Some(c) => self.enum_member_of(c, m@),
                None => None,
            },
        ensures
            r == self.literal_of(*x),
            final(errors)@ == old(errors)@ + self.literal_diags_of(*x),
    ;

    /// The type bound to a name at its use.
    fn lookup_binding(&self, name: &String) -> (r: Type)
        ensures
            r == self.binding_of(name@),
    ;

    /// The literal type of a member of an enumeration class, if it has one.
    fn enum_member(&self, class: u64, member: &String) -> (r: Option<Type>)
        ensures
            r == self.enum_member_of(class, member@),
    ;

    /// Combines types into one union (flattening and removing duplicates).
    fn unions(&self, xs: Vec<Type>) -> (r: Type)
        ensures
            r == self.unions_of(xs@),
    ;
}

/// The literal type of `enum_name.member`: the name must be bound to a class
/// object, on which the member is looked up; otherwise there is no such literal.
pub open spec fn enum_lookup<S: Solver>(solver: &S, enum_name: Seq<char>, member: Seq<char>) -> Option<Type> {
    match class_def_of(solver.binding_of(enum_name)) {
        Some(c) => solver.enum_member_of(c, member),
        None => None,
    }
}

/// The class that a type denotes when it is a class object.
pub open spec fn class_def_of(t: Type) -> Option<u64> {
    match t {
        Type::ClassDef(c) => Some(c),
        _ => None,
    }
}

pub fn class_def(t: &Type) -> (r: Option<u64>)
    ensures
        r == class_def_of(*t),
{
    match t {
        Type::ClassDef(c) => Some(*c),
        _ => None,
    }
}

/// Resolves `enum_name.member` inside a literal: the name is looked up, must denote
/// a class object (otherwise there is no such literal), and the member is looked up
/// on that class.
pub fn resolve_enum_member<S: Solver>(solver: &S, enum_name: &String, member: &String) -> (r:
    Option<Type>)
    ensures
        r == enum_lookup(solver, enum_name@, member@),
{
    let ty = solver.lookup_binding(enum_name);
    match class_def(&ty) {
        Some(c) => solver.enum_member(c, member),
        None => None,
    }
}

} // verus!
