//! The checker of expressions.
use crate::binary::{BinExpr, BinExprView, find_case_index, TypedExpr, TypedExprView};
use crate::codegen::build_in::get_build_in_signature;
use crate::lookup::{find_index, find_last, names_eq};
use crate::module::{Const, Expr, ExprView, IdLoc, MatchPattern};
use crate::text::str_eq;
use crate::type_check::desugar::{
    arms_ifs, build_ifs_from_arms, clone_const, lemma_arms_ifs_weight,
    lemma_weight_all_bounds, weight, weight_all, MATCH_OBJ,
};
use crate::type_check::error::{result_view, TypeError, TypeErrorView};
use crate::type_check::rules::{
    check_expr, check_exprs, check_fields, check_let, constructed_case, Context, expect_type_rule,
    find_function, find_signature, FnSig, FnSigView, resolve_call, resolve_imported_type,
    resolve_type, resolve_user_type, Tables, types_of,
};
use crate::types::{BOOL_TYPE, EXIT_TYPE, I32_TYPE, STR_TYPE, U8_TYPE, VOID_TYPE};
use std::rc::Rc;
use vstd::prelude::*;

verus! {

/// The context of a module: the tables with the module's identity and
/// imports.
pub open spec fn context_of(
    tables: &Tables,
    module_id: &String,
    imports: &Vec<(String, String)>,
) -> Context {
    Context {
        tables: tables.deep_view(),
        module_id: module_id@,
        imports: imports.deep_view(),
    }
}

/// Passes `expr` on where its type fits `type_expected`: where the two
/// are the same, or one of them is the type of what never returns.
pub fn expect_type(type_expected: &str, expr: TypedExpr) -> (r: Result<TypedExpr, TypeError>)
    ensures
        result_view(r) == expect_type_rule(type_expected@, expr.deep_view()),
        r matches Ok(t) ==> t == expr,
{
    if str_eq(type_expected, EXIT_TYPE) || str_eq(expr.expr_type.as_str(), EXIT_TYPE) {
        return Ok(expr);
    }
    if str_eq(type_expected, expr.expr_type.as_str()) {
        Ok(expr)
    } else {
        Err(
            TypeError::TypeMismatch {
                expected: type_expected.to_owned(),
                found: expr.expr_type.clone(),
            },
        )
    }
}

fn get_imported_type_id(
    type_ids: &Vec<(String, Vec<(String, String)>)>,
    imports: &Vec<(String, String)>,
    alias: &String,
    name: &String,
) -> (r: Result<String, TypeError>)
    ensures
        result_view(r) == resolve_imported_type(
            type_ids.deep_view(),
            imports.deep_view(),
            alias@,
            name@,
        ),
{
    match find_index(imports, alias) {
        None => Err(TypeError::UnresolvedImport(alias.clone())),
        Some(i) => {
            let other = &imports[i].1;
            assert(imports.deep_view()[i as int].1 == other@);
            match find_index(type_ids, other) {
                None => Err(TypeError::ModuleNotFound(other.clone())),
                Some(m) => {
                    let types = &type_ids[m].1;
                    assert(type_ids.deep_view()[m as int].1 == types.deep_view());
                    match find_index(types, name) {
                        Some(t) => {
                            assert(types.deep_view()[t as int].1 == types[t as int].1@);
                            Ok(types[t].1.clone())
                        },
                        None => Err(TypeError::TypeNotFound(name.clone())),
                    }
                },
            }
        },
    }
}

/// Resolves a type reference to its global identifier. A local name that
/// the module does not define stands for itself.
pub fn get_unique_type_id(
    type_ids: &Vec<(String, Vec<(String, String)>)>,
    imports: &Vec<(String, String)>,
    module_id: &String,
    ty: &IdLoc,
) -> (r: Result<String, TypeError>)
    ensures
        result_view(r) == resolve_type(
            type_ids.deep_view(),
            imports.deep_view(),
            module_id@,
            ty.deep_view(),
        ),
{
    match ty {
        IdLoc::Here(name) => match find_index(type_ids, module_id) {
            None => Err(TypeError::ModuleNotFound(module_id.clone())),
            Some(m) => {
                let types = &type_ids[m].1;
                assert(type_ids.deep_view()[m as int].1 == types.deep_view());
                match find_index(types, name) {
                    Some(t) => {
                        assert(types.deep_view()[t as int].1 == types[t as int].1@);
                        Ok(types[t].1.clone())
                    },
                    None => Ok(name.clone()),
                }
            },
        },
        IdLoc::Other(alias, name) => get_imported_type_id(type_ids, imports, alias, name),
    }
}

/// Resolves a reference that must name a user type.
pub fn get_user_type_id(
    type_ids: &Vec<(String, Vec<(String, String)>)>,
    imports: &Vec<(String, String)>,
    module_id: &String,
    ty: &IdLoc,
) -> (r: Result<String, TypeError>)
    ensures
        result_view(r) == resolve_user_type(
            type_ids.deep_view(),
            imports.deep_view(),
            module_id@,
            ty.deep_view(),
        ),
{
    match ty {
        IdLoc::Here(name) => match find_index(type_ids, module_id) {
            None => Err(TypeError::ModuleNotFound(module_id.clone())),
            Some(m) => {
                let types = &type_ids[m].1;
                assert(type_ids.deep_view()[m as int].1 == types.deep_view());
                match find_index(types, name) {
                    Some(t) => {
                        assert(types.deep_view()[t as int].1 == types[t as int].1@);
                        Ok(types[t].1.clone())
                    },
                    None => Err(TypeError::TypeNotFound(name.clone())),
                }
            },
        },
        IdLoc::Other(alias, name) => get_imported_type_id(type_ids, imports, alias, name),
    }
}

/// Finds the first overload whose parameter types are exactly `arg_types`.
pub fn find_signature_index(sigs: &Vec<FnSig>, arg_types: &Vec<String>) -> (r: Option<usize>)
    ensures
        match r {
            Some(i) => i < sigs.len() && find_signature(sigs.deep_view(), arg_types.deep_view())
                == Some(sigs[i as int].deep_view()),
            None => find_signature(sigs.deep_view(), arg_types.deep_view()) is None,
        },
{
    let ghost all = sigs.deep_view();
    let mut i: usize = 0;
    assert(all.skip(0) =~= all);
    while i < sigs.len()
        invariant
            i <= sigs.len(),
            all == sigs.deep_view(),
            find_signature(all, arg_types.deep_view()) == find_signature(
                all.skip(i as int),
                arg_types.deep_view(),
            ),
        decreases sigs.len() - i,
    {
        proof {
            assert(all.skip(i as int)[0] == all[i as int]);
            assert(all.skip(i as int).skip(1) =~= all.skip(i + 1));
        }
        if names_eq(&sigs[i].params, arg_types) {
            return Some(i);
        }
        i += 1;
    }
    None
}

/// A typed node.
fn typed(expr: BinExpr, expr_type: String) -> (r: TypedExpr)
    ensures
        r.deep_view() == (TypedExprView { expr: expr.deep_view(), expr_type: expr_type@ }),
        r.expr == expr,
        r.expr_type == expr_type,
{
    TypedExpr { expr, expr_type }
}

/// A call node.
fn call_node(id: String, args: Vec<TypedExpr>) -> (r: BinExpr)
    ensures
        r.deep_view() == BinExprView::FuncCall(id@, args.deep_view()),
{
    let r = BinExpr::FuncCall(id, args);
    assert(r.deep_view()->FuncCall_1 =~= args.deep_view());
    r
}

/// A construction node.
fn construction_node(ty: String, case: String, fields: Vec<TypedExpr>) -> (r: BinExpr)
    ensures
        r.deep_view() == BinExprView::TypeCase(ty@, case@, fields.deep_view()),
{
    let r = BinExpr::TypeCase(ty, case, fields);
    assert(r.deep_view()->TypeCase_2 =~= fields.deep_view());
    r
}

fn arg_types_of(args: &Vec<TypedExpr>) -> (r: Vec<String>)
    ensures
        r.deep_view() == types_of(args.deep_view()),
{
    let mut types: Vec<String> = Vec::new();
    let mut i: usize = 0;
    while i < args.len()
        invariant
            i <= args.len(),
            types.len() == i,
            forall|j: int| 0 <= j < i ==> (#[trigger] types[j])@ == args[j].expr_type@,
        decreases args.len() - i,
    {
        types.push(args[i].expr_type.clone());
        i += 1;
    }
    assert(types.deep_view() =~= types_of(args.deep_view()));
    types
}

/// The overload of `name` in the module `module_id` that takes exactly
/// `arg_types`: its identifier and its return type.
fn find_function_sig(
    tables: &Tables,
    module_id: &String,
    name: &String,
    arg_types: &Vec<String>,
) -> (r: Result<Option<(String, String)>, TypeError>)
    ensures
        match r {
            Ok(Some((id, ret_type))) => match find_function(
                tables.deep_view(),
                module_id@,
                name@,
                arg_types.deep_view(),
            ) {
                Ok(Some(sig)) => sig.id == id@ && sig.ret_type == ret_type@,
                _ => false,
            },
            Ok(None) => find_function(
                tables.deep_view(),
                module_id@,
                name@,
                arg_types.deep_view(),
            ) == Ok::<Option<FnSigView>, TypeErrorView>(None),
            Err(e) => find_function(
                tables.deep_view(),
                module_id@,
                name@,
                arg_types.deep_view(),
            ) == Err::<Option<FnSigView>, TypeErrorView>(e.deep_view()),
        },
{
    match find_index(&tables.function_ids, module_id) {
        None => Err(TypeError::ModuleNotFound(module_id.clone())),
        Some(m) => {
            let functions = &tables.function_ids[m].1;
            assert(tables.function_ids.deep_view()[m as int].1 == functions.deep_view());
            match find_index(functions, name) {
                None => Ok(None),
                Some(f) => {
                    let sigs = &functions[f].1;
                    assert(functions.deep_view()[f as int].1 == sigs.deep_view());
                    match find_signature_index(sigs, arg_types) {
                        None => Ok(None),
                        Some(s) => Ok(Some((sigs[s].id.clone(), sigs[s].ret_type.clone()))),
                    }
                },
            }
        },
    }
}

/// Overload resolution for a call whose arguments are checked.
fn resolve_checked_call(
    tables: &Tables,
    module_id: &String,
    imports: &Vec<(String, String)>,
    id_loc: &IdLoc,
    typed_args: Vec<TypedExpr>,
) -> (r: Result<TypedExpr, TypeError>)
    ensures
        result_view(r) == resolve_call(
            context_of(tables, module_id, imports),
            id_loc.deep_view(),
            typed_args.deep_view(),
        ),
{
    let arg_types = arg_types_of(&typed_args);
    match id_loc {
        IdLoc::Here(name) => {
            match find_function_sig(tables, module_id, name, &arg_types) {
                Err(e) => Err(e),
                Ok(Some((id, ret_type))) => Ok(typed(call_node(id, typed_args), ret_type)),
                Ok(None) => match get_build_in_signature(name.as_str(), &arg_types) {
                    Some((symbol, ret_type)) => Ok(
                        typed(call_node(symbol, typed_args), ret_type),
                    ),
                    None => Err(
                        TypeError::FunctionNotFound {
                            module: None,
                            name: name.clone(),
                            signature: arg_types,
                        },
                    ),
                },
            }
        },
        IdLoc::Other(alias, name) => {
            match find_index(imports, alias) {
                None => Err(TypeError::UnresolvedImport(alias.clone())),
                Some(i) => {
                    let other = &imports[i].1;
                    assert(imports.deep_view()[i as int].1 == other@);
                    match find_function_sig(tables, other, name, &arg_types) {
                        Err(e) => Err(e),
                        Ok(Some((id, ret_type))) => Ok(
                            typed(call_node(id, typed_args), ret_type),
                        ),
                        Ok(None) => Err(
                            TypeError::FunctionNotFound {
                                module: Some(alias.clone()),
                                name: name.clone(),
                                signature: arg_types,
                            },
                        ),
                    }
                },
            }
        },
    }
}

/// Where a prefix of a list fails, the list fails with the same error.
proof fn lemma_check_exprs_prefix(cx: Context, vars: Seq<(Seq<char>, Seq<char>)>, exprs: Seq<ExprView>, k: int)
    requires
        0 <= k <= exprs.len(),
        check_exprs(cx, vars, exprs.take(k)) is Err,
    ensures
        check_exprs(cx, vars, exprs) == check_exprs(cx, vars, exprs.take(k)),
    decreases exprs.len() - k,
{
    if k == exprs.len() {
        assert(exprs.take(k) =~= exprs);
    } else {
        assert(exprs.take(k + 1).drop_last() =~= exprs.take(k));
        lemma_check_exprs_prefix(cx, vars, exprs, k + 1);
    }
}

/// Where a prefix of the fields of a construction fails, the whole fails
/// with the same error.
proof fn lemma_check_fields_prefix(
    cx: Context,
    vars: Seq<(Seq<char>, Seq<char>)>,
    exprs: Seq<ExprView>,
    fields: Seq<Seq<char>>,
    k: int,
)
    requires
        0 <= k <= exprs.len(),
        check_fields(cx, vars, exprs.take(k), fields) is Err,
    ensures
        check_fields(cx, vars, exprs, fields) == check_fields(cx, vars, exprs.take(k), fields),
    decreases exprs.len() - k,
{
    if k == exprs.len() {
        assert(exprs.take(k) =~= exprs);
    } else {
        assert(exprs.take(k + 1).drop_last() =~= exprs.take(k));
        lemma_check_fields_prefix(cx, vars, exprs, fields, k + 1);
    }
}

/// Checks an expression in the scope `vars` and returns it typed, or the
/// first error. The scope is a stack, the innermost binding last; it is
/// the same after the call as before, whether the check succeeds or not.
pub fn type_check_expr(
    tables: &Tables,
    module_id: &String,
    imports: &Vec<(String, String)>,
    vars: &mut Vec<(String, String)>,
    expr: &Expr,
) -> (r: Result<TypedExpr, TypeError>)
    ensures
        final(vars)@ == old(vars)@,
        result_view(r) == check_expr(
            context_of(tables, module_id, imports),
            old(vars).deep_view(),
            expr.deep_view(),
        ),
    decreases weight(expr.deep_view()), 1nat,
{
    let ghost cx = context_of(tables, module_id, imports);
    let ghost scope = vars.deep_view();
    match expr {
        Expr::Const(c) => {
            let ty = match c {
                Const::Bool(_) => BOOL_TYPE,
                Const::U8(_) => U8_TYPE,
                Const::I32(_) => I32_TYPE,
                Const::Str(_) => STR_TYPE,
                Const::Void => VOID_TYPE,
            };
            Ok(typed(BinExpr::Const(clone_const(c)), ty.to_owned()))
        },
        Expr::FuncCall(id_loc, args) => {
            assert(expr.deep_view()->FuncCall_1 =~= args.deep_view());
            type_check_func_call(tables, module_id, imports, vars, id_loc, args)
        },
        Expr::GetTypeCaseField(obj, case, field_index) => {
            let typed_obj = match type_check_expr(tables, module_id, imports, vars, obj) {
                Err(e) => {
                    return Err(e);
                },
                Ok(t) => t,
            };
            let def_index = match find_index(&tables.type_defs, &typed_obj.expr_type) {
                None => {
                    return Err(TypeError::TypeNotFound(typed_obj.expr_type.clone()));
                },
                Some(i) => i,
            };
            let def = &tables.type_defs[def_index].1;
            assert(tables.type_defs.deep_view()[def_index as int].1 == def.deep_view());
            let case_index = match find_case_index(&def.cases, case.as_str()) {
                None => {
                    return Err(
                        TypeError::CaseNotFound {
                            case: case.clone(),
                            ty: typed_obj.expr_type.clone(),
                        },
                    );
                },
                Some(i) => i,
            };
            let case_def = &def.cases[case_index];
            if *field_index < case_def.fields.len() {
                let field_type = case_def.fields[*field_index].clone();
                assert(case_def.deep_view().fields[*field_index as int] == field_type@);
                Ok(
                    typed(
                        BinExpr::GetTypeCaseField(Box::new(typed_obj), case.clone(), *field_index),
                        field_type,
                    ),
                )
            } else {
                Err(
                    TypeError::FieldIndexOutOfBounds {
                        index: *field_index,
                        ty: typed_obj.expr_type.clone(),
                        case: case_def.name.clone(),
                    },
                )
            }
        },
        Expr::If(cond, then_expr, else_expr) => {
            let typed_cond = match type_check_expr(tables, module_id, imports, vars, cond) {
                Err(e) => {
                    return Err(e);
                },
                Ok(t) => t,
            };
            let checked_cond = match expect_type(BOOL_TYPE, typed_cond) {
                Err(e) => {
                    return Err(e);
                },
                Ok(t) => t,
            };
            let typed_then = match type_check_expr(tables, module_id, imports, vars, then_expr) {
                Err(e) => {
                    return Err(e);
                },
                Ok(t) => t,
            };
            let typed_else = match type_check_expr(tables, module_id, imports, vars, else_expr) {
                Err(e) => {
                    return Err(e);
                },
                Ok(t) => t,
            };
            let checked_else = match expect_type(typed_then.expr_type.as_str(), typed_else) {
                Err(e) => {
                    return Err(e);
                },
                Ok(t) => t,
            };
            let ret_type = if str_eq(typed_then.expr_type.as_str(), EXIT_TYPE) {
                checked_else.expr_type.clone()
            } else {
                typed_then.expr_type.clone()
            };
            Ok(
                typed(
                    BinExpr::If(
                        Box::new(checked_cond),
                        Box::new(typed_then),
                        Box::new(checked_else),
                    ),
                    ret_type,
                ),
            )
        },
        Expr::IsTypeCase(obj, ty, case) => {
            let typed_obj = match type_check_expr(tables, module_id, imports, vars, obj) {
                Err(e) => {
                    return Err(e);
                },
                Ok(t) => t,
            };
            let type_id = match get_user_type_id(&tables.type_ids, imports, module_id, ty) {
                Err(e) => {
                    return Err(e);
                },
                Ok(id) => id,
            };
            if typed_obj.expr_type != type_id {
                return Err(
                    TypeError::CaseTypeMismatch {
                        expected: type_id,
                        found: typed_obj.expr_type.clone(),
                    },
                );
            }
            let def_index = match find_index(&tables.type_defs, &type_id) {
                None => {
                    return Err(TypeError::TypeNotFound(type_id));
                },
                Some(i) => i,
            };
            let def = &tables.type_defs[def_index].1;
            assert(tables.type_defs.deep_view()[def_index as int].1 == def.deep_view());
            match find_case_index(&def.cases, case.as_str()) {
                None => Err(TypeError::NotACase { case: case.clone(), ty: type_id }),
                Some(_) => Ok(
                    typed(
                        BinExpr::IsCase(Box::new(typed_obj), case.clone()),
                        BOOL_TYPE.to_owned(),
                    ),
                ),
            }
        },
        Expr::Let(name, definition, body) => type_check_let(
            tables,
            module_id,
            imports,
            vars,
            name.as_str(),
            definition,
            body,
        ),
        Expr::Match(obj, match_arms) => {
            assert(expr.deep_view()->Match_1 =~= match_arms.deep_view());
            type_check_match(tables, module_id, imports, vars, obj, match_arms)
        },
        Expr::Sequence(e1, e2) => {
            let checked_e1 = match type_check_expr(tables, module_id, imports, vars, e1) {
                Err(e) => {
                    return Err(e);
                },
                Ok(t) => t,
            };
            let checked_e2 = match type_check_expr(tables, module_id, imports, vars, e2) {
                Err(e) => {
                    return Err(e);
                },
                Ok(t) => t,
            };
            let ret_type = checked_e2.expr_type.clone();
            Ok(typed(BinExpr::Sequence(Box::new(checked_e1), Box::new(checked_e2)), ret_type))
        },
        Expr::TypeCase(typ, case, args) => {
            let ghost arg_views = args.deep_view();
            assert(expr.deep_view()->TypeCase_2 =~= arg_views);
            let type_id = match get_user_type_id(&tables.type_ids, imports, module_id, typ) {
                Err(e) => {
                    return Err(e);
                },
                Ok(id) => id,
            };
            let def_index = match find_index(&tables.type_defs, &type_id) {
                None => {
                    return Err(TypeError::TypeNotFound(type_id));
                },
                Some(i) => i,
            };
            let def = &tables.type_defs[def_index].1;
            assert(tables.type_defs.deep_view()[def_index as int].1 == def.deep_view());
            let case_index = match find_case_index(&def.cases, case.as_str()) {
                None => {
                    return Err(TypeError::CaseNotFound { case: case.clone(), ty: type_id });
                },
                Some(i) => i,
            };
            let case_def = &def.cases[case_index];
            let ghost fields = case_def.deep_view().fields;
            assert(constructed_case(cx, typ.deep_view(), case@) == Ok::<
                (Seq<char>, Seq<Seq<char>>),
                TypeErrorView,
            >((type_id@, fields)));
            if case_def.fields.len() != args.len() {
                return Err(
                    TypeError::FieldCountMismatch {
                        ty: type_id,
                        case: case.clone(),
                        fields: case_def.fields.len(),
                        values: args.len(),
                    },
                );
            }
            let mut checked_args: Vec<TypedExpr> = Vec::new();
            let mut i: usize = 0;
            assert(arg_views.take(0) =~= Seq::<ExprView>::empty());
            assert(checked_args.deep_view() =~= Seq::<TypedExprView>::empty());
            while i < args.len()
                invariant
                    i <= args.len(),
                    vars@ == old(vars)@,
                    scope == old(vars).deep_view(),
                    cx == context_of(tables, module_id, imports),
                    arg_views == args.deep_view(),
                    fields == case_def.deep_view().fields,
                    case_def.fields.len() == args.len(),
                    weight(expr.deep_view()) == 1 + weight_all(arg_views),
                    expr.deep_view() == ExprView::TypeCase(typ.deep_view(), case@, arg_views),
                    constructed_case(cx, typ.deep_view(), case@) == Ok::<
                        (Seq<char>, Seq<Seq<char>>),
                        TypeErrorView,
                    >((type_id@, fields)),
                    check_fields(cx, scope, arg_views.take(i as int), fields) == Ok::<
                        Seq<TypedExprView>,
                        TypeErrorView,
                    >(checked_args.deep_view()),
                decreases args.len() - i,
            {
                proof {
                    lemma_weight_all_bounds(arg_views, i as int);
                    assert(arg_views.take(i + 1).drop_last() =~= arg_views.take(i as int));
                    assert(arg_views.take(i + 1).last() == args[i as int].deep_view());
                }
                let checked = match type_check_expr(tables, module_id, imports, vars, &args[i]) {
                    Err(e) => {
                        proof {
                            lemma_check_fields_prefix(cx, scope, arg_views, fields, i + 1);
                        }
                        return Err(e);
                    },
                    Ok(t) => t,
                };
                let expected = match expect_type(case_def.fields[i].as_str(), checked) {
                    Err(e) => {
                        proof {
                            lemma_check_fields_prefix(cx, scope, arg_views, fields, i + 1);
                        }
                        return Err(e);
                    },
                    Ok(t) => t,
                };
                let ghost before = checked_args.deep_view();
                checked_args.push(expected);
                assert(checked_args.deep_view() =~= before.push(expected.deep_view()));
                i += 1;
            }
            assert(arg_views.take(i as int) =~= arg_views);
            let ret_type = type_id.clone();
            Ok(typed(construction_node(type_id, case.clone(), checked_args), ret_type))
        },
        Expr::Var(name) => match find_last(vars, name) {
            Some(var_type) => Ok(typed(BinExpr::Var(name.clone()), var_type.clone())),
            None => Err(TypeError::VariableNotFound(name.clone())),
        },
    }
}

/// Checks a call: the arguments in order, then the overload that takes
/// exactly their types.
pub fn type_check_func_call(
    tables: &Tables,
    module_id: &String,
    imports: &Vec<(String, String)>,
    vars: &mut Vec<(String, String)>,
    id_loc: &IdLoc,
    args: &Vec<Rc<Expr>>,
) -> (r: Result<TypedExpr, TypeError>)
    ensures
        final(vars)@ == old(vars)@,
        result_view(r) == match check_exprs(
            context_of(tables, module_id, imports),
            old(vars).deep_view(),
            args.deep_view(),
        ) {
            Err(e) => Err(e),
            Ok(typed_args) => resolve_call(
                context_of(tables, module_id, imports),
                id_loc.deep_view(),
                typed_args,
            ),
        },
    decreases 1 + weight_all(args.deep_view()), 0nat,
{
    let ghost cx = context_of(tables, module_id, imports);
    let ghost scope = vars.deep_view();
    let ghost arg_views = args.deep_view();
    let mut type_checked_args: Vec<TypedExpr> = Vec::new();
    let mut i: usize = 0;
    assert(arg_views.take(0) =~= Seq::<ExprView>::empty());
    assert(type_checked_args.deep_view() =~= Seq::<TypedExprView>::empty());
    while i < args.len()
        invariant
            i <= args.len(),
            vars@ == old(vars)@,
            scope == old(vars).deep_view(),
            cx == context_of(tables, module_id, imports),
            arg_views == args.deep_view(),
            check_exprs(cx, scope, arg_views.take(i as int)) == Ok::<
                Seq<TypedExprView>,
                TypeErrorView,
            >(type_checked_args.deep_view()),
        decreases args.len() - i,
    {
        proof {
            lemma_weight_all_bounds(arg_views, i as int);
            assert(arg_views.take(i + 1).drop_last() =~= arg_views.take(i as int));
            assert(arg_views.take(i + 1).last() == args[i as int].deep_view());
        }
        let checked = match type_check_expr(tables, module_id, imports, vars, &args[i]) {
            Err(e) => {
                proof {
                    lemma_check_exprs_prefix(cx, scope, arg_views, i + 1);
                }
                return Err(e);
            },
            Ok(t) => t,
        };
        let ghost before = type_checked_args.deep_view();
        type_checked_args.push(checked);
        assert(type_checked_args.deep_view() =~= before.push(checked.deep_view()));
        i += 1;
    }
    assert(arg_views.take(i as int) =~= arg_views);
    resolve_checked_call(tables, module_id, imports, id_loc, type_checked_args)
}

/// Checks `let name = definition in body`. The binding is in scope in the
/// body only: it is taken off the scope again before the function
/// returns, also when the body fails.
pub fn type_check_let(
    tables: &Tables,
    module_id: &String,
    imports: &Vec<(String, String)>,
    vars: &mut Vec<(String, String)>,
    name: &str,
    definition: &Expr,
    body: &Expr,
) -> (r: Result<TypedExpr, TypeError>)
    ensures
        final(vars)@ == old(vars)@,
        result_view(r) == check_let(
            context_of(tables, module_id, imports),
            old(vars).deep_view(),
            name@,
            definition.deep_view(),
            body.deep_view(),
        ),
    decreases 1 + weight(definition.deep_view()) + weight(body.deep_view()), 0nat,
{
    let ghost scope = vars.deep_view();
    let typed_def = match type_check_expr(tables, module_id, imports, vars, definition) {
        Err(e) => {
            return Err(e);
        },
        Ok(t) => t,
    };
    if str_eq(typed_def.expr_type.as_str(), VOID_TYPE) {
        return Err(TypeError::VoidVariable);
    }
    vars.push((name.to_owned(), typed_def.expr_type.clone()));
    assert(vars.deep_view() =~= scope.push((name@, typed_def.expr_type@)));
    let body_result = type_check_expr(tables, module_id, imports, vars, body);
    vars.pop();
    assert(vars@ =~= old(vars)@);
    match body_result {
        Err(e) => Err(e),
        Ok(typed_body) => {
            let ret_type = typed_body.expr_type.clone();
            Ok(
                typed(
                    BinExpr::Let(name.to_owned(), Box::new(typed_def), Box::new(typed_body)),
                    ret_type,
                ),
            )
        },
    }
}

/// Checks a `match`: the matched value is bound to a variable of its own
/// and the arms become a chain of conditionals, which is checked as the
/// body of that binding.
pub fn type_check_match(
    tables: &Tables,
    module_id: &String,
    imports: &Vec<(String, String)>,
    vars: &mut Vec<(String, String)>,
    obj: &Box<Expr>,
    match_arms: &Vec<(MatchPattern, Rc<Expr>)>,
) -> (r: Result<TypedExpr, TypeError>)
    ensures
        final(vars)@ == old(vars)@,
        result_view(r) == check_let(
            context_of(tables, module_id, imports),
            old(vars).deep_view(),
            MATCH_OBJ@,
            obj.deep_view(),
            arms_ifs(match_arms.deep_view()),
        ),
    decreases 2 + weight(obj.deep_view()) + crate::type_check::desugar::arms_weight(
        match_arms.deep_view(),
    ), 0nat,
{
    let ifs = build_ifs_from_arms(match_arms);
    proof {
        lemma_arms_ifs_weight(match_arms.deep_view());
    }
    type_check_let(tables, module_id, imports, vars, MATCH_OBJ, obj, &ifs)
}

} // verus!
