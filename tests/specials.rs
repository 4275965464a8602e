use pyre_specials::callable::callable_concatenate;
use pyre_specials::diagnostics::{Diagnostic, Message, Severity};
use pyre_specials::expr::{ArgExpr, ExprShape};
use pyre_specials::solver::{class_def, resolve_enum_member, Solver};
use pyre_specials::special::{apply_special_form, route_of, Route};
use pyre_specials::tuple::TupleMerger;
use pyre_specials::types::{
    AnyStyle, Callable, Lit, Param, Params, Required, SpecialForm, Tuple, Type,
};
use ruff_text_size::{TextRange, TextSize};
use vstd::seq::Seq;

const INT: u64 = 1;
const STR: u64 = 2;
const BOOL: u64 = 3;
const TS: u64 = 10;
const B: u64 = 11;
const P: u64 = 20;
const CONCAT: u64 = 30;
const LIT1: u64 = 40;
const LIT2: u64 = 41;
const LIT_A: u64 = 42;
const PAIR: u64 = 50;
const UNPACKED: u64 = 51;
const ENUM: u64 = 60;
const RED: u64 = 61;
const BLUE: u64 = 62;
/// Nodes from here on report a diagnostic of their own when evaluated.
const NOISY: u64 = 70;

/// The diagnostic that evaluating a noisy node reports.
fn noise(x: &ArgExpr) -> Diagnostic {
    Diagnostic {
        severity: Severity::Error,
        range: x.range,
        message: Message::UnsupportedCallableParams(x.text.clone()),
    }
}

fn int_t() -> Type {
    Type::ClassType(INT)
}

fn str_t() -> Type {
    Type::ClassType(STR)
}

fn bool_t() -> Type {
    Type::ClassType(BOOL)
}

/// What each test node evaluates to.
fn type_of(node: u64) -> Type {
    match node {
        INT => int_t(),
        STR => str_t(),
        BOOL => bool_t(),
        TS => Type::Tuple(Tuple::Unbounded(Box::new(Type::ClassType(9)))),
        B => Type::Tuple(Tuple::Unbounded(Box::new(Type::ClassType(8)))),
        P => Type::Quantified(P),
        CONCAT => Type::Concatenate(vec![int_t()], Box::new(Type::Quantified(P))),
        LIT1 => Type::Literal(Lit::Int(1)),
        LIT2 => Type::Literal(Lit::Int(2)),
        LIT_A => Type::Literal(Lit::Str("a".to_string())),
        PAIR => Type::Tuple(Tuple::Concrete(vec![int_t(), str_t()])),
        UNPACKED => Type::Tuple(Tuple::Unpacked(
            vec![int_t()],
            Box::new(str_t()),
            vec![bool_t()],
        )),
        ENUM => Type::ClassDef(7),
        _ => Type::Any(AnyStyle::Implicit),
    }
}

struct TableSolver;

// Verus keeps the trait's specification functions as methods of the compiled
// trait; they are never called at run time.
impl Solver for TableSolver {
    fn untype_of(&self, x: ArgExpr) -> Type {
        type_of(x.node)
    }

    fn expr_of(&self, x: ArgExpr) -> Type {
        type_of(x.node)
    }

    fn literal_of(&self, x: ArgExpr) -> Type {
        match x.node {
            RED => Type::Literal(Lit::Enum(7, "RED".to_string())),
            BLUE => Type::NoneType,
            _ => type_of(x.node),
        }
    }

    fn untype_diags_of(&self, _x: ArgExpr) -> Seq<Diagnostic> {
        unreachable!()
    }

    fn expr_diags_of(&self, _x: ArgExpr) -> Seq<Diagnostic> {
        unreachable!()
    }

    fn literal_diags_of(&self, _x: ArgExpr) -> Seq<Diagnostic> {
        unreachable!()
    }

    fn binding_of(&self, _name: Seq<char>) -> Type {
        unreachable!()
    }

    fn enum_member_of(&self, _class: u64, _member: Seq<char>) -> Option<Type> {
        unreachable!()
    }

    fn unions_of(&self, _xs: Seq<Type>) -> Type {
        unreachable!()
    }

    fn expr_untype(&self, x: &ArgExpr, errors: &mut Vec<Diagnostic>) -> Type {
        if x.node >= NOISY {
            errors.push(noise(x));
        }
        type_of(x.node)
    }

    fn expr(&self, x: &ArgExpr, _errors: &mut Vec<Diagnostic>) -> Type {
        type_of(x.node)
    }

    fn literal<F: Fn(&String, &String) -> Option<Type>>(
        &self,
        x: &ArgExpr,
        enums: &F,
        _errors: &mut Vec<Diagnostic>,
    ) -> Type {
        match x.node {
            RED => enums(&"Color".to_string(), &"RED".to_string()).unwrap_or(Type::NoneType),
            BLUE => enums(&"Color".to_string(), &"BLUE".to_string()).unwrap_or(Type::NoneType),
            _ => type_of(x.node),
        }
    }

    fn lookup_binding(&self, name: &String) -> Type {
        if name == "Color" {
            type_of(ENUM)
        } else {
            int_t()
        }
    }

    fn enum_member(&self, class: u64, member: &String) -> Option<Type> {
        if class == 7 && member == "RED" {
            Some(Type::Literal(Lit::Enum(7, member.clone())))
        } else {
            None
        }
    }

    fn unions(&self, xs: Vec<Type>) -> Type {
        Type::Union(xs)
    }
}

fn range(start: u32, end: u32) -> TextRange {
    TextRange::new(TextSize::from(start), TextSize::from(end))
}

fn node(n: u64, shape: ExprShape) -> ArgExpr {
    ArgExpr { node: n, range: range(n as u32, n as u32 + 1), text: format!("e{}", n), shape }
}

fn plain(n: u64) -> ArgExpr {
    node(n, ExprShape::Other)
}

fn name(n: u64) -> ArgExpr {
    node(n, ExprShape::Name)
}

fn ellipsis() -> ArgExpr {
    node(99, ExprShape::Ellipsis)
}

fn starred(n: u64) -> ArgExpr {
    node(100 + n, ExprShape::Starred(Box::new(name(n))))
}

fn list(ns: &[u64]) -> ArgExpr {
    node(98, ExprShape::List(ns.iter().map(|n| name(*n)).collect()))
}

fn whole() -> TextRange {
    range(0, 200)
}

fn resolve(form: SpecialForm, args: &[ArgExpr]) -> (Type, Vec<Diagnostic>) {
    let mut errors = Vec::new();
    let r = apply_special_form(&TableSolver, form, args, whole(), &mut errors);
    (r, errors)
}

fn form(t: Type) -> Type {
    Type::TypeForm(Box::new(t))
}

fn error_diag(at: TextRange, message: Message) -> Diagnostic {
    Diagnostic { severity: Severity::Error, range: at, message }
}

#[test]
fn optional_of_one_is_union_with_none() {
    let (r, errors) = resolve(SpecialForm::Optional, &[name(INT)]);
    assert_eq!(r, form(Type::Union(vec![int_t(), Type::NoneType])));
    assert!(errors.is_empty());
}

#[test]
fn optional_of_two_reports_count() {
    let (r, errors) = resolve(SpecialForm::Optional, &[name(INT), name(STR)]);
    assert_eq!(r, Type::Any(AnyStyle::Error));
    assert_eq!(errors, vec![error_diag(whole(), Message::WrongArity(SpecialForm::Optional, 2))]);
}

#[test]
fn union_keeps_members() {
    let (r, errors) = resolve(SpecialForm::Union, &[name(INT), name(STR)]);
    assert_eq!(r, form(Type::Union(vec![int_t(), str_t()])));
    assert!(errors.is_empty());
}

#[test]
fn empty_union() {
    let (r, _) = resolve(SpecialForm::Union, &[]);
    assert_eq!(r, form(Type::Union(vec![])));
}

#[test]
fn tuple_concrete() {
    let (r, _) = resolve(SpecialForm::Tuple, &[name(INT), name(STR)]);
    assert_eq!(r, form(Type::Tuple(Tuple::Concrete(vec![int_t(), str_t()]))));
}

#[test]
fn empty_tuple() {
    let (r, _) = resolve(SpecialForm::Tuple, &[]);
    assert_eq!(r, form(Type::Tuple(Tuple::Concrete(vec![]))));
}

#[test]
fn tuple_unbounded() {
    let (r, errors) = resolve(SpecialForm::Tuple, &[name(INT), ellipsis()]);
    assert_eq!(r, form(Type::Tuple(Tuple::Unbounded(Box::new(int_t())))));
    assert!(errors.is_empty());
}

#[test]
fn tuple_ellipsis_after_two_elements() {
    let (r, errors) = resolve(SpecialForm::Tuple, &[name(INT), name(STR), ellipsis()]);
    assert_eq!(r, Type::Any(AnyStyle::Error));
    assert_eq!(errors, vec![error_diag(ellipsis().range, Message::InvalidEllipsis)]);
}

#[test]
fn tuple_ellipsis_first() {
    let (r, errors) = resolve(SpecialForm::Tuple, &[ellipsis()]);
    assert_eq!(r, Type::Any(AnyStyle::Error));
    assert_eq!(errors, vec![error_diag(ellipsis().range, Message::InvalidEllipsis)]);
}

#[test]
fn tuple_with_unpacked_middle() {
    let (r, errors) = resolve(SpecialForm::Tuple, &[name(INT), starred(TS), name(STR)]);
    assert_eq!(
        r,
        form(Type::Tuple(Tuple::Unpacked(
            vec![int_t()],
            Box::new(Type::ClassType(9)),
            vec![str_t()]
        )))
    );
    assert!(errors.is_empty());
}

#[test]
fn tuple_two_unbounded_unpacks() {
    let (r, errors) = resolve(SpecialForm::Tuple, &[starred(TS), starred(B)]);
    assert_eq!(r, Type::Any(AnyStyle::Error));
    assert_eq!(errors, vec![error_diag(name(B).range, Message::MultipleUnbounded)]);
}

#[test]
fn tuple_unpacks_concrete_and_unpacked() {
    let (r, _) = resolve(SpecialForm::Tuple, &[starred(PAIR), starred(UNPACKED), starred(PAIR)]);
    assert_eq!(
        r,
        form(Type::Tuple(Tuple::Unpacked(
            vec![int_t(), str_t(), int_t()],
            Box::new(str_t()),
            vec![bool_t(), int_t(), str_t()]
        )))
    );
}

#[test]
fn tuple_unpack_of_non_tuple() {
    let (r, errors) = resolve(SpecialForm::Tuple, &[starred(INT)]);
    assert_eq!(r, Type::Any(AnyStyle::Error));
    assert_eq!(errors, vec![error_diag(name(INT).range, Message::ExpectedTuple(int_t()))]);
}

#[test]
fn callable_with_parameter_list() {
    let (r, errors) = resolve(SpecialForm::Callable, &[list(&[INT, STR]), name(BOOL)]);
    let expected = Callable {
        params: Params::List(vec![
            Param::PosOnly(int_t(), Required::Required),
            Param::PosOnly(str_t(), Required::Required),
        ]),
        ret: bool_t(),
    };
    assert_eq!(r, form(Type::Callable(Box::new(expected))));
    assert!(errors.is_empty());
}

#[test]
fn callable_with_ellipsis() {
    let (r, _) = resolve(SpecialForm::Callable, &[ellipsis(), name(BOOL)]);
    let expected = Callable { params: Params::Ellipsis, ret: bool_t() };
    assert_eq!(r, form(Type::Callable(Box::new(expected))));
}

#[test]
fn callable_with_param_spec() {
    let (r, _) = resolve(SpecialForm::Callable, &[name(P), name(BOOL)]);
    let expected = Callable { params: Params::ParamSpec(Type::Quantified(P)), ret: bool_t() };
    assert_eq!(r, form(Type::Callable(Box::new(expected))));
}

#[test]
fn callable_with_concatenate() {
    let (r, _) = resolve(SpecialForm::Callable, &[node(CONCAT, ExprShape::Subscript), name(BOOL)]);
    let expected = Callable {
        params: Params::Concatenate(vec![int_t()], Type::Quantified(P)),
        ret: bool_t(),
    };
    assert_eq!(r, form(Type::Callable(Box::new(expected))));
}

#[test]
fn callable_with_other_subscript() {
    let first = node(PAIR, ExprShape::Subscript);
    let (r, errors) = resolve(SpecialForm::Callable, &[node(PAIR, ExprShape::Subscript), name(BOOL)]);
    assert_eq!(r, Type::Any(AnyStyle::Error));
    assert_eq!(
        errors,
        vec![error_diag(first.range, Message::ExpectedConcatenate(type_of(PAIR)))]
    );
}

#[test]
fn callable_with_unsupported_first_argument() {
    let (r, errors) = resolve(SpecialForm::Callable, &[plain(INT), name(BOOL)]);
    assert_eq!(r, Type::Any(AnyStyle::Implicit));
    assert_eq!(
        errors,
        vec![Diagnostic {
            severity: Severity::Unimplemented,
            range: plain(INT).range,
            message: Message::UnsupportedCallableParams("e1".to_string()),
        }]
    );
}

#[test]
fn callable_with_one_argument() {
    let (r, errors) = resolve(SpecialForm::Callable, &[name(INT)]);
    assert_eq!(r, Type::Any(AnyStyle::Error));
    assert_eq!(errors, vec![error_diag(whole(), Message::WrongArity(SpecialForm::Callable, 1))]);
}

#[test]
fn literal_union_in_order() {
    let (r, _) = resolve(SpecialForm::Literal, &[plain(LIT1), plain(LIT2), plain(LIT_A)]);
    assert_eq!(
        r,
        form(Type::Union(vec![
            Type::Literal(Lit::Int(1)),
            Type::Literal(Lit::Int(2)),
            Type::Literal(Lit::Str("a".to_string())),
        ]))
    );
}

#[test]
fn concatenate_builds_prefix_and_spec() {
    let (r, _) = resolve(SpecialForm::Concatenate, &[name(INT), name(STR), name(P)]);
    assert_eq!(
        r,
        form(Type::Concatenate(vec![int_t(), str_t()], Box::new(Type::Quantified(P))))
    );
}

#[test]
fn concatenate_with_one_argument() {
    let (r, errors) = resolve(SpecialForm::Concatenate, &[name(INT)]);
    assert_eq!(r, Type::Any(AnyStyle::Error));
    assert_eq!(
        errors,
        vec![error_diag(whole(), Message::WrongArity(SpecialForm::Concatenate, 1))]
    );
}

#[test]
fn type_guard_of_one() {
    let (r, _) = resolve(SpecialForm::TypeGuard, &[name(INT)]);
    assert_eq!(r, form(Type::TypeGuard(Box::new(int_t()))));
}

#[test]
fn type_guard_of_two() {
    let (r, errors) = resolve(SpecialForm::TypeGuard, &[name(INT), name(STR)]);
    assert_eq!(r, Type::Any(AnyStyle::Error));
    assert_eq!(errors, vec![error_diag(whole(), Message::WrongArity(SpecialForm::TypeGuard, 2))]);
}

#[test]
fn type_is_unpack_and_type() {
    assert_eq!(resolve(SpecialForm::TypeIs, &[name(INT)]).0, form(Type::TypeIs(Box::new(int_t()))));
    assert_eq!(resolve(SpecialForm::Unpack, &[name(TS)]).0, form(Type::Unpack(Box::new(type_of(TS)))));
    assert_eq!(resolve(SpecialForm::Type, &[name(INT)]).0, form(form(int_t())));
    let (r, errors) = resolve(SpecialForm::Unpack, &[]);
    assert_eq!(r, Type::Any(AnyStyle::Error));
    assert_eq!(errors, vec![error_diag(whole(), Message::WrongArity(SpecialForm::Unpack, 0))]);
}

#[test]
fn annotated_discards_metadata() {
    let (r, errors) = resolve(SpecialForm::Annotated, &[name(INT), plain(LIT_A)]);
    assert_eq!(r, int_t());
    assert!(errors.is_empty());
}

#[test]
fn unhandled_form_is_reported() {
    let (r, errors) = resolve(SpecialForm::Annotated, &[name(INT)]);
    assert_eq!(r, Type::Any(AnyStyle::Implicit));
    assert_eq!(
        errors,
        vec![Diagnostic {
            severity: Severity::Unimplemented,
            range: whole(),
            message: Message::Unhandled(SpecialForm::Annotated, vec!["e1".to_string()]),
        }]
    );
    let (r, errors) = resolve(SpecialForm::Generic, &[name(INT), name(STR)]);
    assert_eq!(r, Type::Any(AnyStyle::Implicit));
    assert_eq!(
        errors[0].message,
        Message::Unhandled(SpecialForm::Generic, vec!["e1".to_string(), "e2".to_string()])
    );
}

#[test]
fn resolving_twice_gives_the_same_type() {
    let args = [name(INT), starred(UNPACKED), name(STR)];
    let (r1, e1) = resolve(SpecialForm::Tuple, &args);
    let (r2, e2) = resolve(SpecialForm::Tuple, &args);
    assert_eq!(r1, r2);
    assert_eq!(e1, e2);
}

#[test]
fn routes_by_count() {
    assert_eq!(route_of(SpecialForm::Optional, 1), Route::Build);
    assert_eq!(route_of(SpecialForm::Optional, 0), Route::WrongArity);
    assert_eq!(route_of(SpecialForm::Concatenate, 2), Route::Build);
    assert_eq!(route_of(SpecialForm::Annotated, 1), Route::Unhandled);
    assert_eq!(route_of(SpecialForm::Tuple, 0), Route::Build);
    assert_eq!(route_of(SpecialForm::Protocol, 1), Route::Unhandled);
}

#[test]
fn merger_steps() {
    let mut m = TupleMerger::new();
    m.push_element(int_t());
    assert_eq!(m.ellipsis(), Ok(Tuple::Unbounded(Box::new(int_t()))));
    let mut m = TupleMerger::new();
    assert_eq!(m.unpack(type_of(TS)), Ok(()));
    assert_eq!(m.unpack(type_of(B)), Err(Message::MultipleUnbounded));
    m.push_element(str_t());
    assert_eq!(m.finish(), Tuple::Unpacked(vec![], Box::new(Type::ClassType(9)), vec![str_t()]));
}

#[test]
fn concatenate_in_callable_position() {
    assert_eq!(
        callable_concatenate(type_of(CONCAT), bool_t()),
        Ok(Callable { params: Params::Concatenate(vec![int_t()], Type::Quantified(P)), ret: bool_t() })
    );
    assert_eq!(
        callable_concatenate(int_t(), bool_t()),
        Err(Message::ExpectedConcatenate(int_t()))
    );
}

#[test]
fn enum_member_through_binding() {
    let red = resolve_enum_member(&TableSolver, &"Color".to_string(), &"RED".to_string());
    assert_eq!(red, Some(Type::Literal(Lit::Enum(7, "RED".to_string()))));
    assert_eq!(resolve_enum_member(&TableSolver, &"Color".to_string(), &"BLUE".to_string()), None);
    assert_eq!(resolve_enum_member(&TableSolver, &"Other".to_string(), &"RED".to_string()), None);
    assert_eq!(class_def(&Type::ClassDef(7)), Some(7));
    assert_eq!(class_def(&int_t()), None);
}

#[test]
fn tuple_unpacked_after_unbounded() {
    let (r, errors) = resolve(SpecialForm::Tuple, &[starred(TS), starred(UNPACKED)]);
    assert_eq!(r, Type::Any(AnyStyle::Error));
    assert_eq!(errors, vec![error_diag(name(UNPACKED).range, Message::MultipleUnbounded)]);
}

#[test]
fn tuple_concrete_unpack_after_middle_goes_to_suffix() {
    let (r, _) = resolve(SpecialForm::Tuple, &[starred(TS), starred(PAIR), name(BOOL)]);
    assert_eq!(
        r,
        form(Type::Tuple(Tuple::Unpacked(
            vec![],
            Box::new(Type::ClassType(9)),
            vec![int_t(), str_t(), bool_t()]
        )))
    );
}

#[test]
fn tuple_ellipsis_after_unpack() {
    let (r, errors) = resolve(SpecialForm::Tuple, &[name(INT), starred(TS), ellipsis()]);
    assert_eq!(r, Type::Any(AnyStyle::Error));
    assert_eq!(errors, vec![error_diag(ellipsis().range, Message::InvalidEllipsis)]);
}

#[test]
fn callable_with_starred_first_argument() {
    let first = starred(TS);
    let (r, errors) = resolve(SpecialForm::Callable, &[starred(TS), name(BOOL)]);
    assert_eq!(r, Type::Any(AnyStyle::Implicit));
    assert_eq!(errors[0].severity, Severity::Unimplemented);
    assert_eq!(errors[0].range, first.range);
    assert_eq!(errors[0].message, Message::UnsupportedCallableParams(first.text));
}

#[test]
fn type_is_of_two() {
    let (r, errors) = resolve(SpecialForm::TypeIs, &[name(INT), name(STR)]);
    assert_eq!(r, Type::Any(AnyStyle::Error));
    assert_eq!(errors, vec![error_diag(whole(), Message::WrongArity(SpecialForm::TypeIs, 2))]);
}

#[test]
fn literal_enum_members_resolve_through_the_binding() {
    let (r, _) = resolve(SpecialForm::Literal, &[plain(RED), plain(LIT1), plain(BLUE)]);
    assert_eq!(
        r,
        form(Type::Union(vec![
            Type::Literal(Lit::Enum(7, "RED".to_string())),
            Type::Literal(Lit::Int(1)),
            Type::NoneType,
        ]))
    );
}

#[test]
fn count_is_checked_before_evaluation() {
    let (_, errors) = resolve(SpecialForm::Optional, &[name(NOISY), name(NOISY + 1)]);
    assert_eq!(errors, vec![error_diag(whole(), Message::WrongArity(SpecialForm::Optional, 2))]);
}

#[test]
fn evaluation_diagnostics_are_kept_in_order() {
    let (_, errors) = resolve(SpecialForm::Union, &[name(NOISY), name(INT), name(NOISY + 1)]);
    assert_eq!(errors, vec![noise(&name(NOISY)), noise(&name(NOISY + 1))]);
}

#[test]
fn arguments_after_ellipsis_are_not_evaluated() {
    let (r, errors) = resolve(SpecialForm::Tuple, &[name(INT), ellipsis(), name(NOISY)]);
    assert_eq!(r, form(Type::Tuple(Tuple::Unbounded(Box::new(int_t())))));
    assert!(errors.is_empty());
}

#[test]
fn arguments_after_a_rejected_unpack_are_not_evaluated() {
    let (_, errors) = resolve(SpecialForm::Tuple, &[name(NOISY), starred(TS), starred(B), name(NOISY + 1)]);
    assert_eq!(
        errors,
        vec![noise(&name(NOISY)), error_diag(name(B).range, Message::MultipleUnbounded)]
    );
}

#[test]
fn callable_evaluates_return_type_first() {
    let (_, errors) = resolve(SpecialForm::Callable, &[list(&[NOISY, NOISY + 1]), name(NOISY + 2)]);
    assert_eq!(
        errors,
        vec![noise(&name(NOISY + 2)), noise(&name(NOISY)), noise(&name(NOISY + 1))]
    );
}
