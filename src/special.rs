use vstd::prelude::*;
use ruff_text_size::TextRange;
use crate::callable::{callable_concatenate, concatenate_callable};
use crate::diagnostics::{report_error, Diagnostic, Message, Severity};
use crate::expr::{texts_of, ArgExpr, ExprShape};
use crate::solver::{enum_lookup, resolve_enum_member, Solver};
use crate::tuple::{
    lemma_merge_stops, merge_arg, merge_outcome, merge_upto,
    MergeStep, TupleMerger, TupleShape,
};
use crate::types::{AnyStyle, Callable, Param, Params, Required, SpecialForm, Type};

verus! {

/// How a form is handled, decided from its tag and argument count alone.
#[derive(Clone, Copy, Debug, PartialEq, Eq)]
pub enum Route {
    /// The form is built from its arguments.
    Build,
    /// The form does not take that many arguments: an error.
    WrongArity,
    /// The combination is not supported.
    Unhandled,
}

pub open spec fn route(form: SpecialForm, n: nat) -> Route {
    match form {
        SpecialForm::Optional | SpecialForm::TypeGuard | SpecialForm::TypeIs
        | SpecialForm::Unpack | SpecialForm::Type => if n == 1 {
            Route::Build
        } else {
            Route::WrongArity
        },
        SpecialForm::Union | SpecialForm::Tuple | SpecialForm::Literal => Route::Build,
        SpecialForm::Concatenate => if n >= 2 {
            Route::Build
        } else {
            Route::WrongArity
        },
        SpecialForm::Callable => if n == 2 {
            Route::Build
        } else {
            Route::WrongArity
        },
        SpecialForm::Annotated => if n > 1 {
            Route::Build
        } else {
            Route::Unhandled
        },
        _ => Route::Unhandled,
    }
}

pub fn route_of(form: SpecialForm, n: usize) -> (r: Route)
    ensures
        r == route(form, n as nat),
{
    match form {
        SpecialForm::Optional | SpecialForm::TypeGuard | SpecialForm::TypeIs
        | SpecialForm::Unpack | SpecialForm::Type => if n == 1 {
            Route::Build
        } else {
            Route::WrongArity
        },
        SpecialForm::Union | SpecialForm::Tuple | SpecialForm::Literal => Route::Build,
        SpecialForm::Concatenate => if n >= 2 {
            Route::Build
        } else {
            Route::WrongArity
        },
        SpecialForm::Callable => if n == 2 {
            Route::Build
        } else {
            Route::WrongArity
        },
        SpecialForm::Annotated => if n > 1 {
            Route::Build
        } else {
            Route::Unhandled
        },
        _ => Route::Unhandled,
    }
}

pub open spec fn error_at(range: TextRange, message: Message) -> Diagnostic {
    Diagnostic { severity: Severity::Error, range, message }
}

/// `r` marks as a type the tuple of the given shape.
pub open spec fn is_tuple_form(r: Type, shape: TupleShape) -> bool {
    match r {
        Type::TypeForm(b) => match *b {
            Type::Tuple(t) => t@ == shape,
            _ => false,
        },
        _ => false,
    }
}

/// The payload of a result marked as a type.
pub open spec fn form_body(r: Type) -> Type {
    match r {
        Type::TypeForm(b) => *b,
        _ => r,
    }
}

/// The callable inside a result marked as a type.
pub open spec fn form_callable(r: Type) -> Option<Callable> {
    match form_body(r) {
        Type::Callable(c) if r is TypeForm => Some(*c),
        _ => None,
    }
}

/// The diagnostic that reports an unhandled form with these arguments.
pub open spec fn is_unhandled_report(d: Diagnostic, form: SpecialForm, range: TextRange, args: Seq<ArgExpr>) -> bool {
    &&& d.severity == Severity::Unimplemented
    &&& d.range == range
    &&& d.message matches Message::Unhandled(f, texts) && f == form && texts@ == texts_of(args)
}

/// What an argument of a tuple form is evaluated to: for `*x`, what `x`
/// evaluates to; for `...`, nothing is evaluated and `None` stands in.
pub open spec fn element_type<S: Solver>(solver: &S, a: ArgExpr) -> Type {
    match a.shape {
        ExprShape::Starred(inner) => solver.untype_of(*inner),
        ExprShape::Ellipsis => Type::NoneType,
        _ => solver.untype_of(a),
    }
}

/// The evaluation of each argument of a tuple form.
pub open spec fn evaluated<S: Solver>(solver: &S, args: Seq<ArgExpr>) -> Seq<Type> {
    args.map_values(|a: ArgExpr| element_type(solver, a))
}

/// What each argument evaluates to as a type annotation.
pub open spec fn untyped<S: Solver>(solver: &S, args: Seq<ArgExpr>) -> Seq<Type> {
    args.map_values(|a: ArgExpr| solver.untype_of(a))
}

/// The diagnostics of evaluating the first `n` arguments as type annotations, in order.
pub open spec fn untype_diags_upto<S: Solver>(solver: &S, args: Seq<ArgExpr>, n: nat) -> Seq<Diagnostic>
    decreases n,
{
    if n == 0 {
        Seq::empty()
    } else {
        untype_diags_upto(solver, args, (n - 1) as nat) + solver.untype_diags_of(args[n - 1])
    }
}

/// The diagnostics of building the literal types of the first `n` arguments, in order.
pub open spec fn literal_diags_upto<S: Solver>(solver: &S, args: Seq<ArgExpr>, n: nat) -> Seq<Diagnostic>
    decreases n,
{
    if n == 0 {
        Seq::empty()
    } else {
        literal_diags_upto(solver, args, (n - 1) as nat) + solver.literal_diags_of(args[n - 1])
    }
}

/// The diagnostics of evaluating one argument of a tuple form: for `*x`, those of
/// `x`; none for `...`.
pub open spec fn element_diags<S: Solver>(solver: &S, a: ArgExpr) -> Seq<Diagnostic> {
    match a.shape {
        ExprShape::Starred(inner) => solver.untype_diags_of(*inner),
        ExprShape::Ellipsis => Seq::empty(),
        _ => solver.untype_diags_of(a),
    }
}

/// The diagnostics of evaluating the first `n` arguments of a tuple form, in order.
pub open spec fn element_diags_upto<S: Solver>(solver: &S, args: Seq<ArgExpr>, n: nat) -> Seq<Diagnostic>
    decreases n,
{
    if n == 0 {
        Seq::empty()
    } else {
        element_diags_upto(solver, args, (n - 1) as nat) + element_diags(solver, args[n - 1])
    }
}

/// How many of the first `n` arguments of a tuple form are taken in: all up to and
/// including the one that completes or rejects the tuple, and none after it.
pub open spec fn merge_consumed(args: Seq<ArgExpr>, tys: Seq<Type>, n: nat) -> nat
    decreases n,
{
    if n == 0 {
        0
    } else if merge_upto(args, tys, (n - 1) as nat) is Continue {
        n
    } else {
        merge_consumed(args, tys, (n - 1) as nat)
    }
}

/// The result and diagnostics of resolving a tuple form: the arguments are taken in
/// up to the one that completes or rejects the tuple, each reporting what its
/// evaluation reports; a rejection adds its error last.
pub open spec fn tuple_reported<S: Solver>(
    solver: &S,
    args: Seq<ArgExpr>,
    before: Seq<Diagnostic>,
    r: Type,
    after: Seq<Diagnostic>,
) -> bool {
    let tys = evaluated(solver, args);
    let taken = before + element_diags_upto(solver, args, merge_consumed(args, tys, args.len()));
    match merge_outcome(args, tys) {
        MergeStep::Done(shape) => is_tuple_form(r, shape) && after == taken,
        MergeStep::Fail(m, range) => r == Type::Any(AnyStyle::Error) && after == taken.push(
            error_at(range, m),
        ),
        MergeStep::Continue(_) => false,
    }
}

proof fn lemma_consumed_all(args: Seq<ArgExpr>, tys: Seq<Type>, n: nat)
    requires
        merge_upto(args, tys, n) is Continue,
    ensures
        merge_consumed(args, tys, n) == n,
{
    if n > 0 {
        if merge_upto(args, tys, (n - 1) as nat) !is Continue {
            assert(merge_upto(args, tys, n) == merge_upto(args, tys, (n - 1) as nat));
        }
    }
}

proof fn lemma_consumed_stop(args: Seq<ArgExpr>, tys: Seq<Type>, k: nat, n: nat)
    requires
        1 <= k <= n,
        merge_upto(args, tys, (k - 1) as nat) is Continue,
        merge_upto(args, tys, k) !is Continue,
    ensures
        merge_consumed(args, tys, n) == k,
    decreases n,
{
    if n > k {
        lemma_merge_stops(args, tys, k, (n - 1) as nat);
        lemma_consumed_stop(args, tys, k, (n - 1) as nat);
    }
}

fn resolve_tuple<S: Solver>(solver: &S, arguments: &[ArgExpr], errors: &mut Vec<Diagnostic>) -> (r: Type)
    ensures
        tuple_reported(solver, arguments@, old(errors)@, r, final(errors)@),
{
    let ghost full = evaluated(solver, arguments@);
    let ghost n = arguments@.len();
    let ghost before = errors@;
    let mut merger = TupleMerger::new();
    let mut i: usize = 0;
    while i < arguments.len()
        invariant
            0 <= i <= arguments@.len(),
            full == evaluated(solver, arguments@),
            n == arguments@.len(),
            before == old(errors)@,
            merge_upto(arguments@, full, i as nat) == MergeStep::Continue(merger@),
            errors@ == before + element_diags_upto(solver, arguments@, i as nat),
        decreases arguments@.len() - i,
    {
        let value = &arguments[i];
        assert(full[i as int] == element_type(solver, arguments@[i as int]));
        match &value.shape {
            ExprShape::Ellipsis => {
                proof {
                    assert(arguments@[i as int].shape is Ellipsis);
                    assert(merge_upto(arguments@, full, (i + 1) as nat) == merge_arg(
                        merger@,
                        arguments@[i as int],
                        full[i as int],
                    ));
                    assert(merge_upto(arguments@, full, (i + 1) as nat) !is Continue);
                }
                let res = merger.ellipsis();
                proof {
                    assert(errors@ =~= before + element_diags_upto(solver, arguments@, (i + 1) as nat));
                    lemma_consumed_stop(arguments@, full, (i + 1) as nat, n);
                    lemma_merge_stops(arguments@, full, (i + 1) as nat, n);
                }
                match res {
                    Ok(t) => {
                        return Type::type_form(Type::Tuple(t));
                    },
                    Err(msg) => {
                        return report_error(errors, value.range, msg);
                    },
                }
            },
            ExprShape::Starred(inner) => {
                let t = solver.expr_untype(inner, errors);
                proof {
                    assert(errors@ =~= before + element_diags_upto(solver, arguments@, (i + 1) as nat));
                }
                let res = merger.unpack(t);
                match res {
                    Ok(()) => {},
                    Err(msg) => {
                        proof {
                            lemma_consumed_stop(arguments@, full, (i + 1) as nat, n);
                            lemma_merge_stops(arguments@, full, (i + 1) as nat, n);
                        }
                        return report_error(errors, inner.range, msg);
                    },
                }
            },
            _ => {
                let t = solver.expr_untype(value, errors);
                proof {
                    assert(errors@ =~= before + element_diags_upto(solver, arguments@, (i + 1) as nat));
                }
                merger.push_element(t);
            },
        }
        i += 1;
    }
    let tuple = merger.finish();
    proof {
        lemma_consumed_all(arguments@, full, n);
        assert(merge_outcome(arguments@, full) == MergeStep::Done(tuple@));
    }
    Type::type_form(Type::Tuple(tuple))
}

} // verus!

verus! {

/// The result and diagnostics match `Callable[x, ...]` where the subscript `x`
/// evaluated to `t`, the return type to `ret`, and the diagnostics were `d` once
/// both were evaluated.
pub open spec fn subscript_reported(
    t: Type,
    ret: Type,
    range: TextRange,
    d: Seq<Diagnostic>,
    r: Type,
    after: Seq<Diagnostic>,
) -> bool {
    match concatenate_callable(t, ret) {
        Ok(c) => form_callable(r) == Some(c) && after == d,
        Err(m) => r == Type::Any(AnyStyle::Error) && after == d.push(error_at(range, m)),
    }
}

/// The result and diagnostics match `Callable[a, ...]` for the shape of its first
/// argument `a`, where the return type was evaluated first, to `ret`, leaving the
/// diagnostics `d`.
pub open spec fn callable_reported<S: Solver>(
    solver: &S,
    a: ArgExpr,
    ret: Type,
    d: Seq<Diagnostic>,
    r: Type,
    after: Seq<Diagnostic>,
) -> bool {
    match a.shape {
        ExprShape::List(elts) => form_callable(r) matches Some(c) && c.ret == ret
            && (c.params matches Params::List(ps) && ps@ == elts@.map_values(
            |e: ArgExpr| Param::PosOnly(solver.untype_of(e), Required::Required),
        )) && after == d + untype_diags_upto(solver, elts@, elts@.len()),
        ExprShape::Ellipsis => form_callable(r) == Some(Callable { params: Params::Ellipsis, ret })
            && after == d,
        ExprShape::Name => form_callable(r) == Some(
            Callable { params: Params::ParamSpec(solver.untype_of(a)), ret },
        ) && after == d + solver.untype_diags_of(a),
        ExprShape::Subscript => subscript_reported(
            solver.untype_of(a),
            ret,
            a.range,
            d + solver.untype_diags_of(a),
            r,
            after,
        ),
        _ => r == Type::Any(AnyStyle::Implicit) && after == d.push(
            Diagnostic {
                severity: Severity::Unimplemented,
                range: a.range,
                message: Message::UnsupportedCallableParams(a.text),
            },
        ),
    }
}

fn resolve_callable<S: Solver>(solver: &S, arguments: &[ArgExpr], errors: &mut Vec<Diagnostic>) -> (r: Type)
    requires
        arguments@.len() == 2,
    ensures
        callable_reported(
            solver,
            arguments@[0],
            solver.untype_of(arguments@[1]),
            old(errors)@ + solver.untype_diags_of(arguments@[1]),
            r,
            final(errors)@,
        ),
{
    let ret = solver.expr_untype(&arguments[1], errors);
    let ghost d = errors@;
    let first = &arguments[0];
    match &first.shape {
        ExprShape::List(elts) => {
            let mut params: Vec<Param> = Vec::new();
            let mut i: usize = 0;
            while i < elts.len()
                invariant
                    0 <= i <= elts@.len(),
                    params@ == elts@.take(i as int).map_values(
                        |e: ArgExpr| Param::PosOnly(solver.untype_of(e), Required::Required),
                    ),
                    errors@ == d + untype_diags_upto(solver, elts@, i as nat),
                decreases elts@.len() - i,
            {
                let t = solver.expr_untype(&elts[i], errors);
                params.push(Param::PosOnly(t, Required::Required));
                i += 1;
                assert(params@ =~= elts@.take(i as int).map_values(
                    |e: ArgExpr| Param::PosOnly(solver.untype_of(e), Required::Required),
                ));
                assert(errors@ =~= d + untype_diags_upto(solver, elts@, i as nat));
            }
            let r = Type::type_form(Type::Callable(Box::new(Callable { params: Params::List(params), ret })));
            assert(form_callable(r) == Some(Callable { params: Params::List(params), ret }));
            assert(elts@.take(elts@.len() as int) =~= elts@);
            r
        },
        ExprShape::Ellipsis => {
            let r = Type::type_form(Type::Callable(Box::new(Callable { params: Params::Ellipsis, ret })));
            assert(form_callable(r) == Some(Callable { params: Params::Ellipsis, ret }));
            r
        },
        ExprShape::Name => {
            let ty = solver.expr_untype(first, errors);
            let r = Type::type_form(Type::Callable(Box::new(Callable { params: Params::ParamSpec(ty), ret })));
            assert(form_callable(r) == Some(Callable { params: Params::ParamSpec(ty), ret }));
            r
        },
        ExprShape::Subscript => {
            let ty = solver.expr_untype(first, errors);
            let ghost tg = ty;
            let ghost rg = ret;
            let ghost d2 = errors@;
            match callable_concatenate(ty, ret) {
                Ok(c) => {
                    let r = Type::type_form(Type::Callable(Box::new(c)));
                    assert(subscript_reported(tg, rg, first.range, d2, r, errors@));
                    r
                },
                Err(msg) => {
                    let r = report_error(errors, first.range, msg);
                    assert(subscript_reported(tg, rg, first.range, d2, r, errors@));
                    r
                },
            }
        },
        _ => {
            errors.push(
                Diagnostic {
                    severity: Severity::Unimplemented,
                    range: first.range,
                    message: Message::UnsupportedCallableParams(first.text.clone()),
                },
            );
            Type::any_implicit()
        },
    }
}

fn report_unhandled(form: SpecialForm, arguments: &[ArgExpr], range: TextRange, errors: &mut Vec<Diagnostic>) -> (r: Type)
    ensures
        r == Type::Any(AnyStyle::Implicit),
        final(errors)@.len() == old(errors)@.len() + 1,
        final(errors)@.drop_last() == old(errors)@,
        is_unhandled_report(final(errors)@.last(), form, range, arguments@),
{
    let mut texts: Vec<String> = Vec::new();
    let mut i: usize = 0;
    while i < arguments.len()
        invariant
            0 <= i <= arguments@.len(),
            texts@.len() == i,
            forall|j: int| 0 <= j < i ==> texts@[j] == arguments@[j].text,
        decreases arguments@.len() - i,
    {
        texts.push(arguments[i].text.clone());
        i += 1;
    }
    assert(texts@ =~= texts_of(arguments@));
    errors.push(
        Diagnostic { severity: Severity::Unimplemented, range, message: Message::Unhandled(form, texts) },
    );
    assert(errors@.drop_last() =~= old(errors)@);
    Type::any_implicit()
}

} // verus!

verus! {

/// What a form built from its arguments yields, from what the solver answers.
pub open spec fn built_reported<S: Solver>(
    solver: &S,
    form: SpecialForm,
    arguments: Seq<ArgExpr>,
    before: Seq<Diagnostic>,
    r: Type,
    after: Seq<Diagnostic>,
) -> bool {
    let all_untyped = before + untype_diags_upto(solver, arguments, arguments.len());
    let first_untyped = before + solver.untype_diags_of(arguments[0]);
    match form {
        SpecialForm::Optional => r is TypeForm && (form_body(r) matches Type::Union(v) && v@ == seq![
            solver.untype_of(arguments[0]),
            Type::NoneType,
        ]) && after == first_untyped,
        SpecialForm::Union => r is TypeForm && (form_body(r) matches Type::Union(v) && v@ == untyped(
            solver,
            arguments,
        )) && after == all_untyped,
        SpecialForm::Tuple => tuple_reported(solver, arguments, before, r, after),
        SpecialForm::Literal => r == Type::TypeForm(
            Box::new(solver.unions_of(arguments.map_values(|a: ArgExpr| solver.literal_of(a)))),
        ) && after == before + literal_diags_upto(solver, arguments, arguments.len()),
        SpecialForm::Concatenate => r is TypeForm && (form_body(r) matches Type::Concatenate(v, p)
            && v@ == untyped(solver, arguments.drop_last()) && *p == solver.untype_of(arguments.last()))
            && after == all_untyped,
        SpecialForm::Callable => callable_reported(
            solver,
            arguments[0],
            solver.untype_of(arguments[1]),
            before + solver.untype_diags_of(arguments[1]),
            r,
            after,
        ),
        SpecialForm::TypeGuard => r == Type::TypeForm(
            Box::new(Type::TypeGuard(Box::new(solver.untype_of(arguments[0])))),
        ) && after == first_untyped,
        SpecialForm::TypeIs => r == Type::TypeForm(
            Box::new(Type::TypeIs(Box::new(solver.untype_of(arguments[0])))),
        ) && after == first_untyped,
        SpecialForm::Unpack => r == Type::TypeForm(
            Box::new(Type::Unpack(Box::new(solver.untype_of(arguments[0])))),
        ) && after == first_untyped,
        SpecialForm::Type => r == Type::TypeForm(
            Box::new(Type::TypeForm(Box::new(solver.untype_of(arguments[0])))),
        ) && after == first_untyped,
        SpecialForm::Annotated => r == solver.expr_of(arguments[0]) && after == before
            + solver.expr_diags_of(arguments[0]),
        // No other form is built from its arguments.
        _ => false,
    }
}

/// What resolving `form` over `arguments` at `range` leaves: the result `r`, and
/// the diagnostics `after` where there were `before`.
pub open spec fn resolution_reported<S: Solver>(
    solver: &S,
    form: SpecialForm,
    arguments: Seq<ArgExpr>,
    range: TextRange,
    before: Seq<Diagnostic>,
    r: Type,
    after: Seq<Diagnostic>,
) -> bool {
    match route(form, arguments.len()) {
        Route::WrongArity => r == Type::Any(AnyStyle::Error) && after == before.push(
            error_at(range, Message::WrongArity(form, arguments.len() as usize)),
        ),
        Route::Unhandled => r == Type::Any(AnyStyle::Implicit) && after.len() == before.len() + 1
            && after.drop_last() == before && is_unhandled_report(after.last(), form, range, arguments),
        Route::Build => built_reported(solver, form, arguments, before, r, after),
    }
}

/// Resolves the special form `special_form` applied to `arguments`, written at
/// `range`. The argument count is checked first; a form with a wrong count gets
/// an error and no argument is evaluated. A combination that is not supported
/// gets an "unimplemented" diagnostic. Otherwise the form is built, its
/// arguments evaluated through `solver`, and the result marked as a type.
pub fn apply_special_form<S: Solver>(
    solver: &S,
    special_form: SpecialForm,
    arguments: &[ArgExpr],
    range: TextRange,
    errors: &mut Vec<Diagnostic>,
) -> (r: Type)
    ensures
        resolution_reported(solver, special_form, arguments@, range, old(errors)@, r, final(errors)@),
{
    match route_of(special_form, arguments.len()) {
        Route::WrongArity => {
            return report_error(errors, range, Message::WrongArity(special_form, arguments.len()));
        },
        Route::Unhandled => {
            return report_unhandled(special_form, arguments, range, errors);
        },
        Route::Build => {},
    }
    let ghost before = errors@;
    match special_form {
        SpecialForm::Optional => {
            let t = solver.expr_untype(&arguments[0], errors);
            let mut members: Vec<Type> = Vec::new();
            members.push(t);
            members.push(Type::NoneType);
            assert(members@ =~= seq![solver.untype_of(arguments@[0]), Type::NoneType]);
            Type::type_form(Type::Union(members))
        },
        SpecialForm::Union => {
            let mut members: Vec<Type> = Vec::new();
            let mut i: usize = 0;
            while i < arguments.len()
                invariant
                    0 <= i <= arguments@.len(),
                    members@ == untyped(solver, arguments@.take(i as int)),
                    errors@ == before + untype_diags_upto(solver, arguments@, i as nat),
                decreases arguments@.len() - i,
            {
                members.push(solver.expr_untype(&arguments[i], errors));
                i += 1;
                assert(members@ =~= untyped(solver, arguments@.take(i as int)));
                assert(errors@ =~= before + untype_diags_upto(solver, arguments@, i as nat));
            }
            assert(arguments@.take(arguments@.len() as int) =~= arguments@);
            Type::type_form(Type::Union(members))
        },
        SpecialForm::Tuple => resolve_tuple(solver, arguments, errors),
        SpecialForm::Literal => {
            let mut literals: Vec<Type> = Vec::new();
            let mut i: usize = 0;
            while i < arguments.len()
                invariant
                    0 <= i <= arguments@.len(),
                    literals@ == arguments@.take(i as int).map_values(|a: ArgExpr| solver.literal_of(a)),
                    errors@ == before + literal_diags_upto(solver, arguments@, i as nat),
                decreases arguments@.len() - i,
            {
                let enums = |enum_name: &String, member: &String| -> (m: Option<Type>)
                    ensures
                        m == enum_lookup(solver, enum_name@, member@),
                    { resolve_enum_member(solver, enum_name, member) };
                literals.push(solver.literal(&arguments[i], &enums, errors));
                i += 1;
                assert(literals@ =~= arguments@.take(i as int).map_values(
                    |a: ArgExpr| solver.literal_of(a),
                ));
                assert(errors@ =~= before + literal_diags_upto(solver, arguments@, i as nat));
            }
            assert(arguments@.take(arguments@.len() as int) =~= arguments@);
            Type::type_form(solver.unions(literals))
        },
        SpecialForm::Concatenate => {
            let last = arguments.len() - 1;
            let mut args: Vec<Type> = Vec::new();
            let mut i: usize = 0;
            while i < last
                invariant
                    0 <= i <= last,
                    last + 1 == arguments@.len(),
                    args@ == untyped(solver, arguments@.take(i as int)),
                    errors@ == before + untype_diags_upto(solver, arguments@, i as nat),
                decreases last - i,
            {
                args.push(solver.expr_untype(&arguments[i], errors));
                i += 1;
                assert(args@ =~= untyped(solver, arguments@.take(i as int)));
                assert(errors@ =~= before + untype_diags_upto(solver, arguments@, i as nat));
            }
            assert(arguments@.take(last as int) =~= arguments@.drop_last());
            let pspec = solver.expr_untype(&arguments[last], errors);
            assert(errors@ =~= before + untype_diags_upto(solver, arguments@, arguments@.len()));
            Type::type_form(Type::Concatenate(args, Box::new(pspec)))
        },
        SpecialForm::Callable => resolve_callable(solver, arguments, errors),
        SpecialForm::TypeGuard => Type::type_form(
            Type::TypeGuard(Box::new(solver.expr_untype(&arguments[0], errors))),
        ),
        SpecialForm::TypeIs => Type::type_form(
            Type::TypeIs(Box::new(solver.expr_untype(&arguments[0], errors))),
        ),
        SpecialForm::Unpack => Type::type_form(
            Type::Unpack(Box::new(solver.expr_untype(&arguments[0], errors))),
        ),
        SpecialForm::Type => Type::type_form(Type::type_form(solver.expr_untype(&arguments[0], errors))),
        _ => solver.expr(&arguments[0], errors),
    }
}

} // verus!

verus! {

/// The members of a union marked as a type.
pub open spec fn union_members(r: Type) -> Option<Seq<Type>> {
    match form_body(r) {
        Type::Union(v) if r is TypeForm => Some(v@),
        _ => None,
    }
}

/// The leading types and the parameter specification of a `Concatenate` marked
/// as a type.
pub open spec fn concatenate_parts(r: Type) -> Option<(Seq<Type>, Type)> {
    match form_body(r) {
        Type::Concatenate(v, p) if r is TypeForm => Some((v@, *p)),
        _ => None,
    }
}

/// The parameter list and return type of a callable marked as a type, when its
/// parameters are an explicit list.
pub open spec fn listed_callable_parts(r: Type) -> Option<(Seq<Param>, Type)> {
    match form_callable(r) {
        Some(c) => match c.params {
            Params::List(ps) => Some((ps@, c.ret)),
            _ => None,
        },
        None => None,
    }
}

/// Resolving the same form over the same arguments twice, with the same solver
/// and the same diagnostics before, gives the same diagnostics after and the same
/// result: the same type; for a union, a `Concatenate` or a callable with a
/// parameter list, the same parts; for a tuple, the same shape.
pub proof fn lemma_resolution_deterministic<S: Solver>(
    solver: &S,
    form: SpecialForm,
    arguments: Seq<ArgExpr>,
    range: TextRange,
    before: Seq<Diagnostic>,
    r1: Type,
    after1: Seq<Diagnostic>,
    r2: Type,
    after2: Seq<Diagnostic>,
)
    requires
        resolution_reported(solver, form, arguments, range, before, r1, after1),
        resolution_reported(solver, form, arguments, range, before, r2, after2),
    ensures
        after1.len() == after2.len(),
        route(form, arguments.len()) != Route::Unhandled ==> after1 == after2,
        route(form, arguments.len()) != Route::Build ==> r1 == r2,
        route(form, arguments.len()) == Route::Build ==> match form {
            SpecialForm::TypeGuard | SpecialForm::TypeIs | SpecialForm::Unpack | SpecialForm::Type
            | SpecialForm::Annotated | SpecialForm::Literal => r1 == r2,
            SpecialForm::Optional | SpecialForm::Union => union_members(r1) is Some
                && union_members(r1) == union_members(r2),
            SpecialForm::Tuple => r1 == r2 || exists|shape: TupleShape|
                is_tuple_form(r1, shape) && is_tuple_form(r2, shape),
            SpecialForm::Concatenate => concatenate_parts(r1) is Some && concatenate_parts(r1)
                == concatenate_parts(r2),
            SpecialForm::Callable => if arguments[0].shape is List {
                listed_callable_parts(r1) is Some && listed_callable_parts(r1)
                    == listed_callable_parts(r2)
            } else {
                r1 == r2
            },
            _ => false,
        },
{
    if route(form, arguments.len()) == Route::Build && form == SpecialForm::Tuple {
        match merge_outcome(arguments, evaluated(solver, arguments)) {
            MergeStep::Done(shape) => {
                assert(is_tuple_form(r1, shape) && is_tuple_form(r2, shape));
            },
            _ => {},
        }
    }
}

} // verus!
