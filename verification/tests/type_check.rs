use arena_lang::binary::{BinExpr, BinType, BinTypeCase, TypedExpr};
use arena_lang::module::{
    Const, Expr, Function, IdLoc, MatchPattern, Module, ParamDef, Type, TypeCase,
};
use arena_lang::type_check::error::TypeError;
use arena_lang::type_check::expr::{
    expect_type, get_unique_type_id, get_user_type_id, type_check_expr, type_check_func_call,
    type_check_let, type_check_match,
};
use arena_lang::type_check::link::{make_function_id, make_type_id};
use arena_lang::type_check::rules::{FnSig, Tables};
use arena_lang::type_check::{type_check, type_check_function, type_check_main};
use std::rc::Rc;

fn s(text: &str) -> String {
    text.to_string()
}

fn here(name: &str) -> IdLoc {
    IdLoc::Here(s(name))
}

fn other(module: &str, name: &str) -> IdLoc {
    IdLoc::Other(s(module), s(name))
}

fn num(n: i32) -> Expr {
    Expr::Const(Const::I32(n))
}

fn boolean(b: bool) -> Expr {
    Expr::Const(Const::Bool(b))
}

fn var(name: &str) -> Expr {
    Expr::Var(s(name))
}

fn call(name: &str, args: Vec<Expr>) -> Expr {
    Expr::FuncCall(here(name), args.into_iter().map(Rc::new).collect())
}

fn let_in(name: &str, definition: Expr, body: Expr) -> Expr {
    Expr::Let(s(name), Rc::new(definition), Rc::new(body))
}

fn if_else(cond: Expr, then_expr: Expr, else_expr: Expr) -> Expr {
    Expr::If(Box::new(cond), Rc::new(then_expr), Box::new(else_expr))
}

fn then(first: Expr, second: Expr) -> Expr {
    Expr::Sequence(Box::new(first), Box::new(second))
}

fn make(ty: &str, case: &str, args: Vec<Expr>) -> Expr {
    Expr::TypeCase(here(ty), s(case), args)
}

fn case(name: &str, fields: &[&str]) -> TypeCase {
    TypeCase { name: s(name), fields: fields.iter().map(|f| here(f)).collect() }
}

fn function(args: &[(&str, &str)], ret: &str, body: Expr) -> (Vec<IdLoc>, Function) {
    (
        args.iter().map(|(_, ty)| here(ty)).collect(),
        Function {
            args: args
                .iter()
                .map(|(name, ty)| ParamDef { name: s(name), param_type: here(ty) })
                .collect(),
            ret_type: here(ret),
            body,
        },
    )
}

/// A module with the type `Option` of the cases `None()` and `Some(i32)`
/// and the type `List` of the cases `Nil()` and `Cons(i32, List)`.
fn module_with(functions: Vec<(&str, Vec<(Vec<IdLoc>, Function)>)>) -> Module {
    Module {
        imports: vec![],
        types: vec![
            (s("Option"), Type { cases: vec![case("None", &[]), case("Some", &["i32"])] }),
            (s("List"), Type { cases: vec![case("Nil", &[]), case("Cons", &["i32", "List"])] }),
        ],
        functions: functions.into_iter().map(|(name, overloads)| (s(name), overloads)).collect(),
    }
}

fn empty_main() -> (&'static str, Vec<(Vec<IdLoc>, Function)>) {
    ("main", vec![function(&[], "void", Expr::Const(Const::Void))])
}

fn tables() -> Tables {
    Tables {
        type_ids: vec![(
            s("$m$"),
            vec![(s("Option"), s("$m$Option")), (s("List"), s("$m$List"))],
        ), (s("$lib$"), vec![(s("Pair"), s("$lib$Pair"))])],
        function_ids: vec![
            (
                s("$m$"),
                vec![(
                    s("twice"),
                    vec![
                        FnSig { params: vec![s("i32")], id: s("$m$twice$0"), ret_type: s("i32") },
                        FnSig { params: vec![s("u8")], id: s("$m$twice$1"), ret_type: s("u8") },
                    ],
                )],
            ),
            (
                s("$lib$"),
                vec![(
                    s("first"),
                    vec![FnSig {
                        params: vec![s("$lib$Pair")],
                        id: s("$lib$first$0"),
                        ret_type: s("i32"),
                    }],
                )],
            ),
        ],
        type_defs: vec![
            (
                s("$m$Option"),
                BinType {
                    cases: vec![
                        BinTypeCase { name: s("None"), fields: vec![] },
                        BinTypeCase { name: s("Some"), fields: vec![s("i32")] },
                    ],
                },
            ),
            (
                s("$m$List"),
                BinType {
                    cases: vec![
                        BinTypeCase { name: s("Nil"), fields: vec![] },
                        BinTypeCase { name: s("Cons"), fields: vec![s("i32"), s("$m$List")] },
                    ],
                },
            ),
            (
                s("$lib$Pair"),
                BinType {
                    cases: vec![BinTypeCase { name: s("Pair"), fields: vec![s("i32"), s("i32")] }],
                },
            ),
        ],
    }
}

fn imports() -> Vec<(String, String)> {
    vec![(s("lib"), s("$lib$")), (s("gone"), s("$gone$"))]
}

fn check_in(vars: &mut Vec<(String, String)>, expr: &Expr) -> Result<TypedExpr, TypeError> {
    type_check_expr(&tables(), &s("$m$"), &imports(), vars, expr)
}

fn check(expr: &Expr) -> Result<TypedExpr, TypeError> {
    check_in(&mut vec![], expr)
}

fn type_of(expr: &Expr) -> String {
    check(expr).expect("the expression should type-check").expr_type
}

#[test]
fn literals_have_the_types_of_their_kinds() {
    assert_eq!(type_of(&num(5)), "i32");
    assert_eq!(type_of(&boolean(true)), "bool");
    assert_eq!(type_of(&Expr::Const(Const::U8(7))), "u8");
    assert_eq!(type_of(&Expr::Const(Const::Str(s("hi")))), "str");
    assert_eq!(type_of(&Expr::Const(Const::Void)), "void");
    assert_eq!(
        check(&num(5)),
        Ok(TypedExpr { expr: BinExpr::Const(Const::I32(5)), expr_type: s("i32") })
    );
}

#[test]
fn if_with_exit_in_then_has_the_type_of_else() {
    let e = if_else(boolean(true), call("exit", vec![num(1)]), num(5));
    assert_eq!(type_of(&e), "i32");
}

#[test]
fn if_with_exit_in_else_has_the_type_of_then() {
    let e = if_else(boolean(true), num(5), call("exit", vec![num(1)]));
    assert_eq!(type_of(&e), "i32");
}

#[test]
fn if_with_exit_in_both_branches_never_returns() {
    let e = if_else(boolean(true), call("exit", vec![num(1)]), call("exit", vec![num(2)]));
    assert_eq!(type_of(&e), "$exit$");
}

#[test]
fn if_with_branches_of_one_type_has_that_type() {
    assert_eq!(type_of(&if_else(boolean(false), boolean(true), boolean(false))), "bool");
}

#[test]
fn if_with_branches_of_two_types_is_rejected() {
    assert_eq!(
        check(&if_else(boolean(true), num(1), boolean(false))),
        Err(TypeError::TypeMismatch { expected: s("i32"), found: s("bool") })
    );
}

#[test]
fn if_needs_a_condition_of_type_bool() {
    assert_eq!(
        check(&if_else(num(1), num(1), num(2))),
        Err(TypeError::TypeMismatch { expected: s("bool"), found: s("i32") })
    );
}

#[test]
fn a_condition_that_never_returns_is_accepted() {
    assert_eq!(type_of(&if_else(call("exit", vec![num(1)]), num(1), num(2))), "i32");
}

#[test]
fn let_binds_in_its_body_only() {
    let mut vars = vec![(s("x"), s("i32"))];
    let e = then(let_in("x", boolean(true), var("x")), var("x"));
    let typed = check_in(&mut vars, &e).expect("the expression should type-check");
    assert_eq!(typed.expr_type, "i32");
    match typed.expr {
        BinExpr::Sequence(first, second) => {
            assert_eq!(first.expr_type, "bool");
            assert_eq!(*second, TypedExpr { expr: BinExpr::Var(s("x")), expr_type: s("i32") });
        }
        other => panic!("not a sequence: {:?}", other),
    }
    assert_eq!(vars, vec![(s("x"), s("i32"))]);
}

#[test]
fn a_binding_is_not_seen_by_a_sibling() {
    let e = if_else(boolean(true), let_in("a", num(1), var("a")), var("a"));
    assert_eq!(check(&e), Err(TypeError::VariableNotFound(s("a"))));
}

#[test]
fn the_scope_is_restored_when_the_body_fails() {
    let mut vars = vec![(s("x"), s("i32"))];
    let e = let_in("y", num(1), var("nope"));
    assert_eq!(check_in(&mut vars, &e), Err(TypeError::VariableNotFound(s("nope"))));
    assert_eq!(vars, vec![(s("x"), s("i32"))]);
    assert_eq!(check_in(&mut vars, &var("y")), Err(TypeError::VariableNotFound(s("y"))));
}

#[test]
fn the_innermost_binding_wins() {
    let e = let_in("x", num(1), let_in("x", boolean(true), var("x")));
    assert_eq!(type_of(&e), "bool");
}

#[test]
fn a_definition_does_not_see_its_own_variable() {
    assert_eq!(
        check(&let_in("x", var("x"), num(1))),
        Err(TypeError::VariableNotFound(s("x")))
    );
}

#[test]
fn binding_void_is_an_error() {
    assert_eq!(
        check(&let_in("x", Expr::Const(Const::Void), num(1))),
        Err(TypeError::VoidVariable)
    );
    assert_eq!(
        type_check_let(
            &tables(),
            &s("$m$"),
            &imports(),
            &mut vec![],
            "x",
            &call("print", vec![num(1)]),
            &num(1)
        ),
        Err(TypeError::VoidVariable)
    );
}

#[test]
fn sequence_has_the_type_of_its_second_part() {
    assert_eq!(type_of(&then(num(1), boolean(true))), "bool");
    assert_eq!(type_of(&then(boolean(true), call("print", vec![num(1)]))), "void");
}

#[test]
fn unknown_variable_is_an_error() {
    assert_eq!(check(&var("ghost")), Err(TypeError::VariableNotFound(s("ghost"))));
}

#[test]
fn eq_on_ints_resolves_to_the_built_in() {
    let typed = check(&call("eq", vec![num(1), num(2)])).expect("eq should resolve");
    assert_eq!(typed.expr_type, "bool");
    match typed.expr {
        BinExpr::FuncCall(id, args) => {
            assert_eq!(id, "eq_i32");
            assert_eq!(args.len(), 2);
        }
        other => panic!("not a call: {:?}", other),
    }
}

#[test]
fn eq_on_int_and_bool_has_no_matching_signature() {
    let e = call("eq", vec![num(1), boolean(true)]);
    let err = check(&e).expect_err("eq(i32, bool) should not resolve");
    assert_eq!(
        err,
        TypeError::FunctionNotFound {
            module: None,
            name: s("eq"),
            signature: vec![s("i32"), s("bool")],
        }
    );
    assert_eq!(
        err.message(),
        "Could not find function eq with signature [\"i32\", \"bool\"]"
    );
}

#[test]
fn an_overload_is_selected_by_the_argument_types() {
    let by_int = check(&call("twice", vec![num(1)])).expect("twice(i32) exists");
    assert_eq!(by_int.expr_type, "i32");
    assert!(matches!(by_int.expr, BinExpr::FuncCall(ref id, _) if id == "$m$twice$0"));
    let by_byte =
        check(&call("twice", vec![Expr::Const(Const::U8(1))])).expect("twice(u8) exists");
    assert_eq!(by_byte.expr_type, "u8");
    assert!(matches!(by_byte.expr, BinExpr::FuncCall(ref id, _) if id == "$m$twice$1"));
    assert_eq!(
        check(&call("twice", vec![boolean(true)])),
        Err(TypeError::FunctionNotFound {
            module: None,
            name: s("twice"),
            signature: vec![s("bool")],
        })
    );
}

#[test]
fn arguments_are_checked_before_the_function_is_looked_for() {
    assert_eq!(
        check(&call("nothing", vec![var("ghost")])),
        Err(TypeError::VariableNotFound(s("ghost")))
    );
    assert_eq!(
        check(&call("twice", vec![var("ghost"), var("other")])),
        Err(TypeError::VariableNotFound(s("ghost")))
    );
}

#[test]
fn a_qualified_call_looks_in_the_imported_module_only() {
    let pair = Expr::TypeCase(other("lib", "Pair"), s("Pair"), vec![num(1), num(2)]);
    let e = Expr::FuncCall(other("lib", "first"), vec![Rc::new(pair)]);
    let typed = check(&e).expect("lib::first exists");
    assert_eq!(typed.expr_type, "i32");
    assert!(matches!(typed.expr, BinExpr::FuncCall(ref id, _) if id == "$lib$first$0"));
    // A built-in is not found under a qualified name.
    let e = Expr::FuncCall(other("lib", "eq"), vec![Rc::new(num(1)), Rc::new(num(2))]);
    assert_eq!(
        check(&e),
        Err(TypeError::FunctionNotFound {
            module: Some(s("lib")),
            name: s("eq"),
            signature: vec![s("i32"), s("i32")],
        })
    );
}

#[test]
fn a_call_through_an_unknown_alias_is_an_unresolved_import() {
    let e = Expr::FuncCall(other("nolib", "f"), vec![]);
    assert_eq!(check(&e), Err(TypeError::UnresolvedImport(s("nolib"))));
}

#[test]
fn a_call_into_a_module_that_is_not_there_is_an_error() {
    let e = Expr::FuncCall(other("gone", "f"), vec![]);
    assert_eq!(check(&e), Err(TypeError::ModuleNotFound(s("$gone$"))));
    assert_eq!(
        type_check_func_call(&tables(), &s("$nowhere$"), &imports(), &mut vec![], &here("f"), &vec![]),
        Err(TypeError::ModuleNotFound(s("$nowhere$")))
    );
}

#[test]
fn construction_has_the_type_of_its_case() {
    let typed = check(&make("Option", "Some", vec![num(5)])).expect("Some(5) is well typed");
    assert_eq!(typed.expr_type, "$m$Option");
    match typed.expr {
        BinExpr::TypeCase(ty, case, fields) => {
            assert_eq!(ty, "$m$Option");
            assert_eq!(case, "Some");
            assert_eq!(fields.len(), 1);
            assert_eq!(fields[0].expr_type, "i32");
        }
        other => panic!("not a construction: {:?}", other),
    }
    assert_eq!(type_of(&make("Option", "None", vec![])), "$m$Option");
}

#[test]
fn construction_checks_the_number_and_the_types_of_the_fields() {
    assert_eq!(
        check(&make("Option", "Some", vec![])),
        Err(TypeError::FieldCountMismatch {
            ty: s("$m$Option"),
            case: s("Some"),
            fields: 1,
            values: 0,
        })
    );
    assert_eq!(
        check(&make("Option", "Some", vec![boolean(true)])),
        Err(TypeError::TypeMismatch { expected: s("i32"), found: s("bool") })
    );
    assert_eq!(
        check(&make("List", "Cons", vec![num(1), make("Option", "None", vec![])])),
        Err(TypeError::TypeMismatch { expected: s("$m$List"), found: s("$m$Option") })
    );
    assert_eq!(
        type_of(&make("List", "Cons", vec![num(1), make("List", "Nil", vec![])])),
        "$m$List"
    );
}

#[test]
fn construction_of_an_unknown_type_or_case_is_an_error() {
    assert_eq!(
        check(&make("Nothing", "Some", vec![])),
        Err(TypeError::TypeNotFound(s("Nothing")))
    );
    assert_eq!(
        check(&make("Option", "Maybe", vec![])),
        Err(TypeError::CaseNotFound { case: s("Maybe"), ty: s("$m$Option") })
    );
    let e = Expr::TypeCase(other("nolib", "Pair"), s("Pair"), vec![]);
    assert_eq!(check(&e), Err(TypeError::UnresolvedImport(s("nolib"))));
    let e = Expr::TypeCase(other("lib", "Triple"), s("Triple"), vec![]);
    assert_eq!(check(&e), Err(TypeError::TypeNotFound(s("Triple"))));
}

#[test]
fn a_field_has_the_type_its_case_declares() {
    let cons = make("List", "Cons", vec![num(1), make("List", "Nil", vec![])]);
    let head = Expr::GetTypeCaseField(Rc::new(cons), s("Cons"), 0);
    assert_eq!(type_of(&head), "i32");
    let cons = make("List", "Cons", vec![num(1), make("List", "Nil", vec![])]);
    let tail = Expr::GetTypeCaseField(Rc::new(cons), s("Cons"), 1);
    assert_eq!(type_of(&tail), "$m$List");
}

#[test]
fn a_field_of_an_unknown_case_or_index_is_an_error() {
    let some = || Rc::new(make("Option", "Some", vec![num(5)]));
    assert_eq!(
        check(&Expr::GetTypeCaseField(some(), s("Maybe"), 0)),
        Err(TypeError::CaseNotFound { case: s("Maybe"), ty: s("$m$Option") })
    );
    assert_eq!(
        check(&Expr::GetTypeCaseField(some(), s("Some"), 1)),
        Err(TypeError::FieldIndexOutOfBounds { index: 1, ty: s("$m$Option"), case: s("Some") })
    );
    assert_eq!(
        check(&Expr::GetTypeCaseField(Rc::new(num(1)), s("Some"), 0)),
        Err(TypeError::TypeNotFound(s("i32")))
    );
}

#[test]
fn a_case_test_is_of_type_bool() {
    let e = Expr::IsTypeCase(Rc::new(make("Option", "None", vec![])), here("Option"), s("Some"));
    let typed = check(&e).expect("the test is well typed");
    assert_eq!(typed.expr_type, "bool");
    assert!(matches!(typed.expr, BinExpr::IsCase(_, ref case) if case == "Some"));
}

#[test]
fn a_case_test_against_another_type_or_an_unknown_case_is_an_error() {
    let none = || Rc::new(make("Option", "None", vec![]));
    assert_eq!(
        check(&Expr::IsTypeCase(none(), here("List"), s("Nil"))),
        Err(TypeError::CaseTypeMismatch { expected: s("$m$List"), found: s("$m$Option") })
    );
    assert_eq!(
        check(&Expr::IsTypeCase(none(), here("Option"), s("Maybe"))),
        Err(TypeError::NotACase { case: s("Maybe"), ty: s("$m$Option") })
    );
    assert_eq!(
        check(&Expr::IsTypeCase(none(), here("Unknown"), s("Some"))),
        Err(TypeError::TypeNotFound(s("Unknown")))
    );
}

#[test]
fn expect_type_lets_equal_types_and_exit_pass() {
    let typed = |ty: &str| TypedExpr { expr: BinExpr::Var(s("v")), expr_type: s(ty) };
    assert_eq!(expect_type("i32", typed("i32")), Ok(typed("i32")));
    assert_eq!(expect_type("i32", typed("$exit$")), Ok(typed("$exit$")));
    assert_eq!(expect_type("$exit$", typed("bool")), Ok(typed("bool")));
    assert_eq!(
        expect_type("i32", typed("bool")),
        Err(TypeError::TypeMismatch { expected: s("i32"), found: s("bool") })
    );
}

#[test]
fn a_type_reference_resolves_to_its_global_identifier() {
    let t = tables();
    let resolve = |ty: &IdLoc| get_unique_type_id(&t.type_ids, &imports(), &s("$m$"), ty);
    assert_eq!(resolve(&here("Option")), Ok(s("$m$Option")));
    assert_eq!(resolve(&here("i32")), Ok(s("i32")));
    assert_eq!(resolve(&here("Unknown")), Ok(s("Unknown")));
    assert_eq!(resolve(&other("lib", "Pair")), Ok(s("$lib$Pair")));
    assert_eq!(resolve(&other("lib", "Option")), Err(TypeError::TypeNotFound(s("Option"))));
    assert_eq!(resolve(&other("nolib", "Pair")), Err(TypeError::UnresolvedImport(s("nolib"))));
    assert_eq!(resolve(&other("gone", "Pair")), Err(TypeError::ModuleNotFound(s("$gone$"))));
    assert_eq!(
        get_unique_type_id(&t.type_ids, &imports(), &s("$x$"), &here("Option")),
        Err(TypeError::ModuleNotFound(s("$x$")))
    );
    assert_eq!(
        get_user_type_id(&t.type_ids, &imports(), &s("$m$"), &here("i32")),
        Err(TypeError::TypeNotFound(s("i32")))
    );
    assert_eq!(
        get_user_type_id(&t.type_ids, &imports(), &s("$m$"), &here("List")),
        Ok(s("$m$List"))
    );
}

#[test]
fn identifiers_are_made_of_module_name_and_overload() {
    assert_eq!(make_type_id(&s("$ab$"), &s("Option")), "$ab$Option");
    assert_eq!(make_function_id(&s("$ab$"), &s("f"), 0), "$ab$f$0");
    assert_eq!(make_function_id(&s("$ab$"), &s("f"), 12), "$ab$f$12");
}

fn option_match(value: Expr) -> Expr {
    Expr::Match(
        Box::new(value),
        vec![
            (MatchPattern::TypeCase(here("Option"), s("None"), vec![]), Rc::new(num(0))),
            (
                MatchPattern::TypeCase(here("Option"), s("Some"), vec![MatchPattern::Var(s("x"))]),
                Rc::new(var("x")),
            ),
        ],
    )
}

#[test]
fn matching_some_of_five_type_checks_to_int() {
    let typed = check(&option_match(make("Option", "Some", vec![num(5)])))
        .expect("the match should type-check");
    assert_eq!(typed.expr_type, "i32");
    match typed.expr {
        BinExpr::Let(name, definition, body) => {
            assert_eq!(name, "$match_obj$");
            assert_eq!(definition.expr_type, "$m$Option");
            assert!(matches!(body.expr, BinExpr::If(_, _, _)));
        }
        other => panic!("not a binding: {:?}", other),
    }
}

#[test]
fn a_match_binds_nothing_beyond_itself() {
    let mut vars = vec![(s("x"), s("bool"))];
    let e = then(option_match(make("Option", "Some", vec![num(5)])), var("x"));
    let typed = check_in(&mut vars, &e).expect("the expression should type-check");
    assert_eq!(typed.expr_type, "bool");
    assert_eq!(vars, vec![(s("x"), s("bool"))]);
    let e = then(option_match(make("Option", "Some", vec![num(5)])), var("$match_obj$"));
    assert_eq!(check(&e), Err(TypeError::VariableNotFound(s("$match_obj$"))));
}

#[test]
fn a_match_on_a_value_of_another_type_is_rejected() {
    assert_eq!(
        check(&option_match(make("List", "Nil", vec![]))),
        Err(TypeError::CaseTypeMismatch { expected: s("$m$Option"), found: s("$m$List") })
    );
    assert_eq!(
        type_check_match(
            &tables(),
            &s("$m$"),
            &imports(),
            &mut vec![],
            &Box::new(Expr::Const(Const::Void)),
            &vec![]
        ),
        Err(TypeError::VoidVariable)
    );
}

#[test]
fn the_arms_of_a_match_must_agree_on_their_type() {
    let e = Expr::Match(
        Box::new(num(1)),
        vec![
            (MatchPattern::Literal(Const::I32(1)), Rc::new(boolean(true))),
            (MatchPattern::Wildcard, Rc::new(num(2))),
        ],
    );
    assert_eq!(
        check(&e),
        Err(TypeError::TypeMismatch { expected: s("i32"), found: s("bool") })
    );
}

#[test]
fn a_literal_pattern_of_another_type_than_the_value_is_rejected() {
    let e = Expr::Match(
        Box::new(num(1)),
        vec![(MatchPattern::Literal(Const::Bool(true)), Rc::new(num(2)))],
    );
    assert_eq!(
        check(&e),
        Err(TypeError::FunctionNotFound {
            module: None,
            name: s("eq"),
            signature: vec![s("bool"), s("i32")],
        })
    );
}

#[test]
fn a_function_is_checked_against_its_return_type() {
    let t = tables();
    let (_, f) = function(&[("n", "i32")], "i32", call("add", vec![var("n"), num(1)]));
    let checked = type_check_function(&t, &s("$m$"), &imports(), &f).expect("well typed");
    assert_eq!(checked.ret_type, "i32");
    assert_eq!(checked.args.len(), 1);
    assert_eq!(checked.args[0].name, "n");
    assert_eq!(checked.args[0].param_type, "i32");
    assert_eq!(checked.body.expr_type, "i32");

    let (_, f) = function(&[], "i32", boolean(true));
    assert_eq!(
        type_check_function(&t, &s("$m$"), &imports(), &f),
        Err(TypeError::TypeMismatch { expected: s("i32"), found: s("bool") })
    );
}

#[test]
fn a_function_that_returns_void_may_have_a_body_of_any_type() {
    let (_, f) = function(&[], "void", num(1));
    let checked =
        type_check_function(&tables(), &s("$m$"), &imports(), &f).expect("well typed");
    assert_eq!(checked.ret_type, "void");
    assert_eq!(checked.body.expr_type, "i32");
}

#[test]
fn a_function_whose_body_never_returns_fits_every_return_type() {
    let (_, f) = function(&[], "i32", call("exit", vec![num(1)]));
    let checked =
        type_check_function(&tables(), &s("$m$"), &imports(), &f).expect("well typed");
    assert_eq!(checked.body.expr_type, "$exit$");
}

#[test]
fn a_parameter_of_type_void_is_rejected() {
    let (_, f) = function(&[("a", "i32"), ("v", "void")], "void", num(1));
    assert_eq!(
        type_check_function(&tables(), &s("$m$"), &imports(), &f),
        Err(TypeError::VoidParameter)
    );
}

#[test]
fn parameters_are_resolved_and_in_scope() {
    let (_, f) = function(&[("o", "Option")], "Option", var("o"));
    let checked =
        type_check_function(&tables(), &s("$m$"), &imports(), &f).expect("well typed");
    assert_eq!(checked.args[0].param_type, "$m$Option");
    assert_eq!(checked.ret_type, "$m$Option");
}

#[test]
fn a_program_is_linked_and_checked() {
    let module = module_with(vec![
        ("five", vec![function(&[], "i32", option_match(make("Option", "Some", vec![num(5)])))]),
        empty_main(),
    ]);
    let binary = type_check(&vec![(s("$m$"), module)], &s("$m$")).expect("well typed");
    let names: Vec<&str> = binary.functions.iter().map(|(name, _)| name.as_str()).collect();
    assert_eq!(names, vec!["main", "$m$five$0", "$m$main$0"]);
    let types: Vec<&str> = binary.types.iter().map(|(name, _)| name.as_str()).collect();
    assert_eq!(types, vec!["$m$Option", "$m$List"]);
    assert_eq!(binary.types[1].1.cases[1].fields, vec![s("i32"), s("$m$List")]);
    assert_eq!(binary.functions[1].1.ret_type, "i32");
    assert_eq!(binary.functions[1].1.body.expr_type, "i32");
}

#[test]
fn the_entry_wrapper_calls_main_and_returns_zero() {
    let module = module_with(vec![empty_main()]);
    let binary = type_check(&vec![(s("$m$"), module)], &s("$m$")).expect("well typed");
    let (name, wrapper) = &binary.functions[0];
    assert_eq!(name, "main");
    assert!(wrapper.args.is_empty());
    assert_eq!(wrapper.ret_type, "i32");
    assert_eq!(
        wrapper.body,
        TypedExpr {
            expr: BinExpr::Sequence(
                Box::new(TypedExpr {
                    expr: BinExpr::FuncCall(s("$m$main$0"), vec![]),
                    expr_type: s("void"),
                }),
                Box::new(TypedExpr { expr: BinExpr::Const(Const::I32(0)), expr_type: s("i32") }),
            ),
            expr_type: s("i32"),
        }
    );
}

#[test]
fn main_must_return_void() {
    let module = module_with(vec![("main", vec![function(&[], "i32", num(0))])]);
    let err = type_check(&vec![(s("$m$"), module)], &s("$m$")).expect_err("main returns i32");
    assert_eq!(err, TypeError::MainNotVoid);
    assert_eq!(err.message(), "Main function has to return void");
}

#[test]
fn a_program_without_entry_is_rejected() {
    let no_main = || module_with(vec![("f", vec![function(&[], "void", num(0))])]);
    assert_eq!(
        type_check(&vec![(s("$m$"), no_main())], &s("$m$")),
        Err(TypeError::MainNotFound)
    );
    assert_eq!(
        type_check(&vec![(s("$m$"), no_main())], &s("$other$")),
        Err(TypeError::MainModuleNotFound)
    );
    let with_args = module_with(vec![("main", vec![function(&[("n", "i32")], "void", num(0))])]);
    assert_eq!(
        type_check(&vec![(s("$m$"), with_args)], &s("$m$")),
        Err(TypeError::MainSignatureNotFound)
    );
}

#[test]
fn type_errors_come_before_a_missing_entry() {
    let module = module_with(vec![("f", vec![function(&[], "i32", boolean(true))])]);
    assert_eq!(
        type_check(&vec![(s("$m$"), module)], &s("$m$")),
        Err(TypeError::TypeMismatch { expected: s("i32"), found: s("bool") })
    );
}

#[test]
fn type_check_main_needs_the_entry_among_the_functions() {
    assert_eq!(type_check_main(vec![], &s("$m$main$0")), Err(TypeError::MainMissing));
}

#[test]
fn modules_see_each_other_through_imports() {
    let lib = Module {
        imports: vec![],
        types: vec![(s("Pair"), Type { cases: vec![case("Pair", &["i32", "i32"])] })],
        functions: vec![(
            s("first"),
            vec![function(
                &[("p", "Pair")],
                "i32",
                Expr::GetTypeCaseField(Rc::new(var("p")), s("Pair"), 0),
            )],
        )],
    };
    let pair = Expr::TypeCase(other("lib", "Pair"), s("Pair"), vec![num(1), num(2)]);
    let main = Module {
        imports: vec![(s("lib"), s("$lib$"))],
        types: vec![],
        functions: vec![
            (
                s("one"),
                vec![function(
                    &[],
                    "i32",
                    Expr::FuncCall(other("lib", "first"), vec![Rc::new(pair)]),
                )],
            ),
            (s("main"), vec![function(&[], "void", Expr::Const(Const::Void))]),
        ],
    };
    let binary = type_check(&vec![(s("$lib$"), lib), (s("$main$"), main)], &s("$main$"))
        .expect("well typed");
    let names: Vec<&str> = binary.functions.iter().map(|(name, _)| name.as_str()).collect();
    assert_eq!(names, vec!["main", "$lib$first$0", "$main$one$0", "$main$main$0"]);
    assert_eq!(binary.functions[1].1.args[0].param_type, "$lib$Pair");
    assert!(matches!(
        binary.functions[2].1.body.expr,
        BinExpr::FuncCall(ref id, _) if id == "$lib$first$0"
    ));
}

#[test]
fn overloads_get_their_numbers_in_declaration_order() {
    let module = module_with(vec![
        (
            "show",
            vec![
                function(&[("n", "i32")], "void", call("print", vec![var("n")])),
                function(&[("c", "u8")], "void", call("print", vec![var("c")])),
            ],
        ),
        (
            "main",
            vec![function(
                &[],
                "void",
                then(call("show", vec![Expr::Const(Const::U8(65))]), call("show", vec![num(1)])),
            )],
        ),
    ]);
    let binary = type_check(&vec![(s("$m$"), module)], &s("$m$")).expect("well typed");
    let names: Vec<&str> = binary.functions.iter().map(|(name, _)| name.as_str()).collect();
    assert_eq!(names, vec!["main", "$m$show$0", "$m$show$1", "$m$main$0"]);
    match &binary.functions[3].1.body.expr {
        BinExpr::Sequence(first, second) => {
            assert!(matches!(first.expr, BinExpr::FuncCall(ref id, _) if id == "$m$show$1"));
            assert!(matches!(second.expr, BinExpr::FuncCall(ref id, _) if id == "$m$show$0"));
        }
        other => panic!("not a sequence: {:?}", other),
    }
}

#[test]
fn checking_twice_gives_the_same_program() {
    let program = || {
        vec![(
            s("$m$"),
            module_with(vec![
                ("five", vec![function(&[], "i32", option_match(make("Option", "None", vec![])))]),
                empty_main(),
            ]),
        )]
    };
    assert_eq!(type_check(&program(), &s("$m$")), type_check(&program(), &s("$m$")));
}

/// Whether the types that the nodes carry agree with each other, and
/// every variable that is read is in `names`.
fn well_formed(e: &TypedExpr, names: &mut Vec<String>) -> bool {
    let fits = |a: &str, b: &str| a == "$exit$" || b == "$exit$" || a == b;
    match &e.expr {
        BinExpr::Const(Const::I32(_)) => e.expr_type == "i32",
        BinExpr::Const(Const::Bool(_)) => e.expr_type == "bool",
        BinExpr::Const(Const::U8(_)) => e.expr_type == "u8",
        BinExpr::Const(Const::Str(_)) => e.expr_type == "str",
        BinExpr::Const(Const::Void) => e.expr_type == "void",
        BinExpr::FuncCall(_, args) => args.iter().all(|a| well_formed(a, names)),
        BinExpr::GetTypeCaseField(obj, _, _) => well_formed(obj, names),
        BinExpr::If(cond, then_expr, else_expr) => {
            let unified = if then_expr.expr_type == "$exit$" {
                &else_expr.expr_type
            } else {
                &then_expr.expr_type
            };
            well_formed(cond, names)
                && well_formed(then_expr, names)
                && well_formed(else_expr, names)
                && fits("bool", &cond.expr_type)
                && fits(&then_expr.expr_type, &else_expr.expr_type)
                && &e.expr_type == unified
        }
        BinExpr::IsCase(obj, _) => well_formed(obj, names) && e.expr_type == "bool",
        BinExpr::Let(name, definition, body) => {
            let definition_ok = well_formed(definition, names);
            names.push(name.clone());
            let body_ok = well_formed(body, names);
            names.pop();
            definition_ok
                && body_ok
                && definition.expr_type != "void"
                && e.expr_type == body.expr_type
        }
        BinExpr::Sequence(first, second) => {
            well_formed(first, names)
                && well_formed(second, names)
                && e.expr_type == second.expr_type
        }
        BinExpr::TypeCase(ty, _, fields) => {
            &e.expr_type == ty && fields.iter().all(|f| well_formed(f, names))
        }
        BinExpr::Var(name) => names.contains(name),
    }
}

#[test]
fn every_node_of_a_checked_expression_is_consistent_and_in_scope() {
    let list = make("List", "Cons", vec![num(1), make("List", "Nil", vec![])]);
    let nested = Expr::Match(
        Box::new(list),
        vec![
            (MatchPattern::Wildcard, Rc::new(call("exit", vec![num(2)]))),
            (
                MatchPattern::TypeCase(
                    here("List"),
                    s("Cons"),
                    vec![MatchPattern::Var(s("head")), MatchPattern::Var(s("tail"))],
                ),
                Rc::new(if_else(
                    call("lt", vec![var("head"), var("n")]),
                    option_match(make("Option", "Some", vec![var("head")])),
                    let_in("n", num(3), call("add", vec![var("n"), var("head")])),
                )),
            ),
        ],
    );
    let mut vars = vec![(s("n"), s("i32"))];
    let typed = check_in(&mut vars, &nested).expect("the expression should type-check");
    assert_eq!(typed.expr_type, "i32");
    assert!(well_formed(&typed, &mut vec![s("n")]));
    // Without the variable of the scope, the expression reads a variable
    // that is not in reach.
    assert!(!well_formed(&typed, &mut vec![]));
}
