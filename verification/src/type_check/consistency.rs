//! What holds of every typed expression that the checker makes.
use crate::binary::{BinExprView, BinFunctionView, TypedExprView};
use crate::collect::try_collect;
use crate::lookup::lookup_last;
use crate::module::{ExprView, FunctionView};
use crate::type_check::desugar::{arms_ifs, lemma_arms_ifs_weight, MATCH_OBJ, weight, weight_all};
use crate::type_check::rules::{
    check_expr, check_exprs, check_fields, check_let, const_type, lemma_weight_positive,
    type_fits, unify, Context, Scope,
};
use crate::type_check::{check_function, param_checker, param_scope};
use crate::types::{BOOL_TYPE, VOID_TYPE};
use vstd::prelude::*;

verus! {

/// Whether the types that the nodes of a typed expression carry agree
/// with each other.
///
/// A literal has the type of its kind. The condition of a conditional is
/// of type `bool`, its branches have one type unless one of them never
/// returns, and its type is the unified type of the branches. A case test
/// is of type `bool`. A binding binds no `void` and has the type of its
/// body. A sequence has the type of its second part. A construction has
/// the type it constructs. And all this holds of every part.
pub open spec fn consistent(e: TypedExprView) -> bool
    decreases e,
{
    match e.expr {
        BinExprView::Const(c) => e.expr_type == const_type(c),
        BinExprView::FuncCall(_, args) => forall|i: int|
            0 <= i < args.len() ==> consistent(#[trigger] args[i]),
        BinExprView::GetTypeCaseField(obj, _, _) => consistent(*obj),
        BinExprView::If(cond, then_expr, else_expr) => {
            &&& consistent(*cond)
            &&& consistent(*then_expr)
            &&& consistent(*else_expr)
            &&& type_fits(BOOL_TYPE@, cond.expr_type)
            &&& type_fits(then_expr.expr_type, else_expr.expr_type)
            &&& e.expr_type == unify(then_expr.expr_type, else_expr.expr_type)
        },
        BinExprView::IsCase(obj, _) => consistent(*obj) && e.expr_type == BOOL_TYPE@,
        BinExprView::Let(_, definition, body) => {
            &&& consistent(*definition)
            &&& consistent(*body)
            &&& definition.expr_type != VOID_TYPE@
            &&& e.expr_type == body.expr_type
        },
        BinExprView::Sequence(first, second) => {
            &&& consistent(*first)
            &&& consistent(*second)
            &&& e.expr_type == second.expr_type
        },
        BinExprView::TypeCase(ty, _, fields) => {
            &&& e.expr_type == ty
            &&& forall|i: int| 0 <= i < fields.len() ==> consistent(#[trigger] fields[i])
        },
        BinExprView::Var(_) => true,
    }
}

/// Every typed expression that the checker makes is consistent.
pub proof fn lemma_checked_is_consistent(cx: Context, vars: Scope, e: ExprView)
    requires
        check_expr(cx, vars, e) is Ok,
    ensures
        consistent(check_expr(cx, vars, e)->Ok_0),
    decreases weight(e), 1nat,
{
    match e {
        ExprView::Const(c) => {},
        ExprView::FuncCall(id, args) => {
            lemma_checked_list_is_consistent(cx, vars, args);
        },
        ExprView::GetTypeCaseField(obj, case, index) => {
            lemma_checked_is_consistent(cx, vars, *obj);
        },
        ExprView::If(cond, then_expr, else_expr) => {
            lemma_checked_is_consistent(cx, vars, *cond);
            lemma_checked_is_consistent(cx, vars, *then_expr);
            lemma_checked_is_consistent(cx, vars, *else_expr);
        },
        ExprView::IsTypeCase(obj, ty, case) => {
            lemma_checked_is_consistent(cx, vars, *obj);
        },
        ExprView::Let(name, definition, body) => {
            lemma_checked_let_is_consistent(cx, vars, name, *definition, *body);
        },
        ExprView::Match(obj, arms) => {
            lemma_arms_ifs_weight(arms);
            lemma_checked_let_is_consistent(cx, vars, MATCH_OBJ@, *obj, arms_ifs(arms));
        },
        ExprView::Sequence(first, second) => {
            lemma_checked_is_consistent(cx, vars, *first);
            lemma_checked_is_consistent(cx, vars, *second);
        },
        ExprView::TypeCase(ty, case, args) => {
            let fields = crate::type_check::rules::constructed_case(cx, ty, case)->Ok_0.1;
            lemma_checked_fields_are_consistent(cx, vars, args, fields);
        },
        ExprView::Var(name) => {},
    }
}

/// A binding that the checker makes is consistent.
pub proof fn lemma_checked_let_is_consistent(
    cx: Context,
    vars: Scope,
    name: Seq<char>,
    definition: ExprView,
    body: ExprView,
)
    requires
        check_let(cx, vars, name, definition, body) is Ok,
    ensures
        consistent(check_let(cx, vars, name, definition, body)->Ok_0),
    decreases 1 + weight(definition) + weight(body), 0nat,
{
    lemma_checked_is_consistent(cx, vars, definition);
    let typed_def = check_expr(cx, vars, definition)->Ok_0;
    lemma_checked_is_consistent(cx, vars.push((name, typed_def.expr_type)), body);
}

/// The arguments that the checker makes are consistent.
pub proof fn lemma_checked_list_is_consistent(cx: Context, vars: Scope, exprs: Seq<ExprView>)
    requires
        check_exprs(cx, vars, exprs) is Ok,
    ensures
        forall|i: int|
            0 <= i < check_exprs(cx, vars, exprs)->Ok_0.len() ==> consistent(
                #[trigger] check_exprs(cx, vars, exprs)->Ok_0[i],
            ),
    decreases 1 + weight_all(exprs), 0nat,
{
    if exprs.len() > 0 {
        lemma_weight_positive(exprs.last());
        lemma_checked_list_is_consistent(cx, vars, exprs.drop_last());
        lemma_checked_is_consistent(cx, vars, exprs.last());
    }
}

/// The field values that the checker makes are consistent.
pub proof fn lemma_checked_fields_are_consistent(
    cx: Context,
    vars: Scope,
    exprs: Seq<ExprView>,
    fields: Seq<Seq<char>>,
)
    requires
        check_fields(cx, vars, exprs, fields) is Ok,
    ensures
        forall|i: int|
            0 <= i < check_fields(cx, vars, exprs, fields)->Ok_0.len() ==> consistent(
                #[trigger] check_fields(cx, vars, exprs, fields)->Ok_0[i],
            ),
    decreases 1 + weight_all(exprs), 0nat,
{
    if exprs.len() > 0 {
        lemma_weight_positive(exprs.last());
        lemma_checked_fields_are_consistent(cx, vars, exprs.drop_last(), fields);
        lemma_checked_is_consistent(cx, vars, exprs.last());
    }
}

/// The names of the variables of a scope, the innermost last.
pub open spec fn scope_names<V>(vars: Seq<(Seq<char>, V)>) -> Seq<Seq<char>> {
    Seq::new(vars.len(), |i: int| vars[i].0)
}

/// Whether a typed expression reads only variables that are in reach
/// where it reads them: those of `names`, and within the body of a
/// binding the variable that the binding binds.
pub open spec fn scoped(e: TypedExprView, names: Seq<Seq<char>>) -> bool
    decreases e,
{
    match e.expr {
        BinExprView::Const(_) => true,
        BinExprView::FuncCall(_, args) => forall|i: int|
            0 <= i < args.len() ==> scoped(#[trigger] args[i], names),
        BinExprView::GetTypeCaseField(obj, _, _) => scoped(*obj, names),
        BinExprView::If(cond, then_expr, else_expr) => scoped(*cond, names) && scoped(
            *then_expr,
            names,
        ) && scoped(*else_expr, names),
        BinExprView::IsCase(obj, _) => scoped(*obj, names),
        BinExprView::Let(name, definition, body) => scoped(*definition, names) && scoped(
            *body,
            names.push(name),
        ),
        BinExprView::Sequence(first, second) => scoped(*first, names) && scoped(*second, names),
        BinExprView::TypeCase(_, _, fields) => forall|i: int|
            0 <= i < fields.len() ==> scoped(#[trigger] fields[i], names),
        BinExprView::Var(name) => names.contains(name),
    }
}

/// A variable that a scope gives a type is among the names of the scope.
proof fn lemma_found_is_named(vars: Scope, name: Seq<char>)
    requires
        lookup_last(vars, name) is Some,
    ensures
        scope_names(vars).contains(name),
    decreases vars.len(),
{
    if vars.last().0 == name {
        assert(scope_names(vars)[vars.len() - 1] == name);
    } else {
        lemma_found_is_named(vars.drop_last(), name);
        let i = choose|i: int|
            0 <= i < scope_names(vars.drop_last()).len() && scope_names(vars.drop_last())[i]
                == name;
        assert(scope_names(vars)[i] == name);
    }
}

/// Every typed expression that the checker makes reads only variables of
/// the scope it was checked in and of its own bindings.
pub proof fn lemma_checked_is_scoped(cx: Context, vars: Scope, e: ExprView)
    requires
        check_expr(cx, vars, e) is Ok,
    ensures
        scoped(check_expr(cx, vars, e)->Ok_0, scope_names(vars)),
    decreases weight(e), 1nat,
{
    match e {
        ExprView::Const(c) => {},
        ExprView::FuncCall(id, args) => {
            lemma_checked_list_is_scoped(cx, vars, args);
        },
        ExprView::GetTypeCaseField(obj, case, index) => {
            lemma_checked_is_scoped(cx, vars, *obj);
        },
        ExprView::If(cond, then_expr, else_expr) => {
            lemma_checked_is_scoped(cx, vars, *cond);
            lemma_checked_is_scoped(cx, vars, *then_expr);
            lemma_checked_is_scoped(cx, vars, *else_expr);
        },
        ExprView::IsTypeCase(obj, ty, case) => {
            lemma_checked_is_scoped(cx, vars, *obj);
        },
        ExprView::Let(name, definition, body) => {
            lemma_checked_let_is_scoped(cx, vars, name, *definition, *body);
        },
        ExprView::Match(obj, arms) => {
            lemma_arms_ifs_weight(arms);
            lemma_checked_let_is_scoped(cx, vars, MATCH_OBJ@, *obj, arms_ifs(arms));
        },
        ExprView::Sequence(first, second) => {
            lemma_checked_is_scoped(cx, vars, *first);
            lemma_checked_is_scoped(cx, vars, *second);
        },
        ExprView::TypeCase(ty, case, args) => {
            let fields = crate::type_check::rules::constructed_case(cx, ty, case)->Ok_0.1;
            lemma_checked_fields_are_scoped(cx, vars, args, fields);
        },
        ExprView::Var(name) => {
            lemma_found_is_named(vars, name);
        },
    }
}

/// A binding that the checker makes reads only variables in reach.
pub proof fn lemma_checked_let_is_scoped(
    cx: Context,
    vars: Scope,
    name: Seq<char>,
    definition: ExprView,
    body: ExprView,
)
    requires
        check_let(cx, vars, name, definition, body) is Ok,
    ensures
        scoped(check_let(cx, vars, name, definition, body)->Ok_0, scope_names(vars)),
    decreases 1 + weight(definition) + weight(body), 0nat,
{
    lemma_checked_is_scoped(cx, vars, definition);
    let typed_def = check_expr(cx, vars, definition)->Ok_0;
    let inner = vars.push((name, typed_def.expr_type));
    lemma_checked_is_scoped(cx, inner, body);
    assert(scope_names(inner) =~= scope_names(vars).push(name));
}

/// The arguments that the checker makes read only variables in reach.
pub proof fn lemma_checked_list_is_scoped(cx: Context, vars: Scope, exprs: Seq<ExprView>)
    requires
        check_exprs(cx, vars, exprs) is Ok,
    ensures
        forall|i: int|
            0 <= i < check_exprs(cx, vars, exprs)->Ok_0.len() ==> scoped(
                #[trigger] check_exprs(cx, vars, exprs)->Ok_0[i],
                scope_names(vars),
            ),
    decreases 1 + weight_all(exprs), 0nat,
{
    if exprs.len() > 0 {
        lemma_weight_positive(exprs.last());
        lemma_checked_list_is_scoped(cx, vars, exprs.drop_last());
        lemma_checked_is_scoped(cx, vars, exprs.last());
    }
}

/// The field values that the checker makes read only variables in reach.
pub proof fn lemma_checked_fields_are_scoped(
    cx: Context,
    vars: Scope,
    exprs: Seq<ExprView>,
    fields: Seq<Seq<char>>,
)
    requires
        check_fields(cx, vars, exprs, fields) is Ok,
    ensures
        forall|i: int|
            0 <= i < check_fields(cx, vars, exprs, fields)->Ok_0.len() ==> scoped(
                #[trigger] check_fields(cx, vars, exprs, fields)->Ok_0[i],
                scope_names(vars),
            ),
    decreases 1 + weight_all(exprs), 0nat,
{
    if exprs.len() > 0 {
        lemma_weight_positive(exprs.last());
        lemma_checked_fields_are_scoped(cx, vars, exprs.drop_last(), fields);
        lemma_checked_is_scoped(cx, vars, exprs.last());
    }
}

/// The names of the parameters, in order.
pub open spec fn param_names(f: BinFunctionView) -> Seq<Seq<char>> {
    Seq::new(f.args.len(), |i: int| f.args[i].name)
}

/// The body of every function that the checker makes is consistent and
/// reads only the parameters of the function and its own bindings; where
/// the function does not return `void`, the type of the body fits the
/// return type.
pub proof fn lemma_checked_function(cx: Context, f: FunctionView)
    requires
        check_function(cx, f) is Ok,
    ensures
        ({
            let checked = check_function(cx, f)->Ok_0;
            &&& consistent(checked.body)
            &&& scoped(checked.body, param_names(checked))
            &&& checked.ret_type != VOID_TYPE@ ==> type_fits(
                checked.ret_type,
                checked.body.expr_type,
            )
        }),
{
    let params = try_collect(
        f.args.len(),
        param_checker(cx.tables.type_ids, cx.imports, cx.module_id, f.args),
    )->Ok_0;
    lemma_checked_is_consistent(cx, param_scope(params), f.body);
    lemma_checked_is_scoped(cx, param_scope(params), f.body);
    let checked = check_function(cx, f)->Ok_0;
    assert(scope_names(param_scope(params)) =~= param_names(checked));
}

} // verus!
