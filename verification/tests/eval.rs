//! The typed programs that the checker produces are run by a small
//! interpreter, so that what a `match` means can be observed.
use arena_lang::binary::{BinExpr, Binary, TypedExpr};
use arena_lang::module::{
    Const, Expr, Function, IdLoc, MatchPattern, Module, ParamDef, Type, TypeCase,
};
use arena_lang::type_check::type_check;
use std::rc::Rc;

#[derive(Clone, Debug, PartialEq)]
enum Val {
    Num(i32),
    Byte(u8),
    Bool(bool),
    Text(String),
    Void,
    Object(String, Vec<Val>),
}

#[derive(Debug, PartialEq)]
enum Stop {
    Exit(i32),
    Stuck(String),
}

fn stuck<T>(why: &str) -> Result<T, Stop> {
    Err(Stop::Stuck(why.to_string()))
}

fn built_in(name: &str, args: &[Val], out: &mut String) -> Result<Val, Stop> {
    match (name, args) {
        ("exit", [Val::Num(code)]) => Err(Stop::Exit(*code)),
        ("print_str", [Val::Text(t)]) => {
            out.push_str(t);
            Ok(Val::Void)
        }
        ("print_i32", [Val::Num(n)]) => {
            out.push_str(&n.to_string());
            Ok(Val::Void)
        }
        ("eq_i32", [Val::Num(a), Val::Num(b)]) => Ok(Val::Bool(a == b)),
        ("eq_bool", [Val::Bool(a), Val::Bool(b)]) => Ok(Val::Bool(a == b)),
        ("eq_u8", [Val::Byte(a), Val::Byte(b)]) => Ok(Val::Bool(a == b)),
        ("lt_i32", [Val::Num(a), Val::Num(b)]) => Ok(Val::Bool(a < b)),
        ("add_i32", [Val::Num(a), Val::Num(b)]) => Ok(Val::Num(a.wrapping_add(*b))),
        ("sub_i32", [Val::Num(a), Val::Num(b)]) => Ok(Val::Num(a.wrapping_sub(*b))),
        ("mul_i32", [Val::Num(a), Val::Num(b)]) => Ok(Val::Num(a.wrapping_mul(*b))),
        _ => stuck(&format!("no built-in {} for {:?}", name, args)),
    }
}

fn call(binary: &Binary, name: &str, args: Vec<Val>, out: &mut String) -> Result<Val, Stop> {
    match binary.functions.iter().find(|(id, _)| id == name) {
        Some((_, f)) => {
            let mut env: Vec<(String, Val)> =
                f.args.iter().map(|p| p.name.clone()).zip(args).collect();
            let result = eval(binary, &mut env, out, &f.body)?;
            if f.ret_type == "void" {
                Ok(Val::Void)
            } else {
                Ok(result)
            }
        }
        None => built_in(name, &args, out),
    }
}

fn eval(
    binary: &Binary,
    env: &mut Vec<(String, Val)>,
    out: &mut String,
    e: &TypedExpr,
) -> Result<Val, Stop> {
    match &e.expr {
        BinExpr::Const(Const::Bool(b)) => Ok(Val::Bool(*b)),
        BinExpr::Const(Const::U8(n)) => Ok(Val::Byte(*n)),
        BinExpr::Const(Const::I32(n)) => Ok(Val::Num(*n)),
        BinExpr::Const(Const::Str(t)) => Ok(Val::Text(t.clone())),
        BinExpr::Const(Const::Void) => Ok(Val::Void),
        BinExpr::FuncCall(name, args) => {
            let mut values = Vec::new();
            for a in args {
                values.push(eval(binary, env, out, a)?);
            }
            call(binary, name, values, out)
        }
        BinExpr::GetTypeCaseField(obj, case, index) => match eval(binary, env, out, obj)? {
            Val::Object(is, fields) if &is == case => match fields.get(*index) {
                Some(v) => Ok(v.clone()),
                None => stuck("no such field"),
            },
            other => stuck(&format!("field {} of {} read of {:?}", index, case, other)),
        },
        BinExpr::If(cond, then_expr, else_expr) => match eval(binary, env, out, cond)? {
            Val::Bool(true) => eval(binary, env, out, then_expr),
            Val::Bool(false) => eval(binary, env, out, else_expr),
            other => stuck(&format!("condition is {:?}", other)),
        },
        BinExpr::IsCase(obj, case) => match eval(binary, env, out, obj)? {
            Val::Object(is, _) => Ok(Val::Bool(&is == case)),
            other => stuck(&format!("case of {:?}", other)),
        },
        BinExpr::Let(name, definition, body) => {
            let value = eval(binary, env, out, definition)?;
            env.push((name.clone(), value));
            let result = eval(binary, env, out, body);
            env.pop();
            result
        }
        BinExpr::Sequence(first, second) => {
            eval(binary, env, out, first)?;
            eval(binary, env, out, second)
        }
        BinExpr::TypeCase(_, case, fields) => {
            let mut values = Vec::new();
            for f in fields {
                values.push(eval(binary, env, out, f)?);
            }
            Ok(Val::Object(case.clone(), values))
        }
        BinExpr::Var(name) => match env.iter().rev().find(|(n, _)| n == name) {
            Some((_, v)) => Ok(v.clone()),
            None => stuck(&format!("no variable {}", name)),
        },
    }
}

fn s(text: &str) -> String {
    text.to_string()
}

fn here(name: &str) -> IdLoc {
    IdLoc::Here(s(name))
}

fn num(n: i32) -> Expr {
    Expr::Const(Const::I32(n))
}

fn var(name: &str) -> Expr {
    Expr::Var(s(name))
}

fn make(ty: &str, case: &str, args: Vec<Expr>) -> Expr {
    Expr::TypeCase(here(ty), s(case), args)
}

fn case(name: &str, fields: &[&str]) -> TypeCase {
    TypeCase { name: s(name), fields: fields.iter().map(|f| here(f)).collect() }
}

fn pattern(ty: &str, case: &str, fields: Vec<MatchPattern>) -> MatchPattern {
    MatchPattern::TypeCase(here(ty), s(case), fields)
}

fn matching(value: Expr, arms: Vec<(MatchPattern, Expr)>) -> Expr {
    Expr::Match(Box::new(value), arms.into_iter().map(|(p, e)| (p, Rc::new(e))).collect())
}

/// Checks a program whose function `test` has the body `body` and the
/// return type `ret`, and runs `test`.
fn run(ret: &str, body: Expr) -> (Result<Val, Stop>, String) {
    let test =
        Function { args: vec![], ret_type: here(ret), body };
    let main = Function {
        args: vec![],
        ret_type: here("void"),
        body: Expr::Const(Const::Void),
    };
    let module = Module {
        imports: vec![],
        types: vec![
            (s("Option"), Type { cases: vec![case("None", &[]), case("Some", &["i32"])] }),
            (
                s("Color"),
                Type { cases: vec![case("Red", &[]), case("Green", &[]), case("Blue", &[])] },
            ),
            (s("List"), Type { cases: vec![case("Nil", &[]), case("Cons", &["i32", "List"])] }),
        ],
        functions: vec![(s("test"), vec![(vec![], test)]), (s("main"), vec![(vec![], main)])],
    };
    let binary = type_check(&vec![(s("$m$"), module)], &s("$m$")).expect("well typed");
    let mut out = String::new();
    let result = call(&binary, "$m$test$0", vec![], &mut out);
    (result, out)
}

fn option_arms() -> Vec<(MatchPattern, Expr)> {
    vec![
        (pattern("Option", "None", vec![]), num(0)),
        (pattern("Option", "Some", vec![MatchPattern::Var(s("x"))]), var("x")),
    ]
}

#[test]
fn matching_some_of_five_evaluates_to_five() {
    let (result, out) = run("i32", matching(make("Option", "Some", vec![num(5)]), option_arms()));
    assert_eq!(result, Ok(Val::Num(5)));
    assert_eq!(out, "");
}

#[test]
fn matching_none_evaluates_to_zero() {
    let (result, _) = run("i32", matching(make("Option", "None", vec![]), option_arms()));
    assert_eq!(result, Ok(Val::Num(0)));
}

#[test]
fn an_unmatched_value_reaches_the_fallback_and_exits_with_one() {
    let arms = vec![
        (pattern("Color", "Red", vec![]), num(1)),
        (pattern("Color", "Green", vec![]), num(2)),
    ];
    let (result, out) = run("i32", matching(make("Color", "Blue", vec![]), arms));
    assert_eq!(result, Err(Stop::Exit(1)));
    assert_eq!(out, "Not exhaustive match\n");
}

#[test]
fn a_matched_value_does_not_reach_the_fallback() {
    let arms = vec![
        (pattern("Color", "Red", vec![]), num(1)),
        (pattern("Color", "Green", vec![]), num(2)),
    ];
    let (result, out) = run("i32", matching(make("Color", "Green", vec![]), arms));
    assert_eq!(result, Ok(Val::Num(2)));
    assert_eq!(out, "");
}

#[test]
fn a_literal_pattern_matches_the_equal_value_only() {
    let arms = || {
        vec![(MatchPattern::Literal(Const::I32(7)), num(70)), (MatchPattern::Literal(Const::I32(8)), num(80))]
    };
    assert_eq!(run("i32", matching(num(8), arms())).0, Ok(Val::Num(80)));
    assert_eq!(run("i32", matching(num(7), arms())).0, Ok(Val::Num(70)));
    assert_eq!(run("i32", matching(num(9), arms())).0, Err(Stop::Exit(1)));
}

#[test]
fn a_wildcard_and_a_variable_match_everything() {
    let (result, _) = run("i32", matching(num(3), vec![(MatchPattern::Wildcard, num(1))]));
    assert_eq!(result, Ok(Val::Num(1)));
    let (result, _) = run("i32", matching(num(3), vec![(MatchPattern::Var(s("n")), var("n"))]));
    assert_eq!(result, Ok(Val::Num(3)));
}

#[test]
fn of_two_arms_that_match_the_later_one_is_taken() {
    let arms = vec![(MatchPattern::Wildcard, num(1)), (MatchPattern::Var(s("n")), num(2))];
    assert_eq!(run("i32", matching(num(3), arms)).0, Ok(Val::Num(2)));
}

#[test]
fn a_failing_sub_pattern_keeps_deeper_ones_from_being_tried() {
    // The second field of the list is `Nil`: the test of the inner `Cons`
    // fails, and the fields of the inner value are not read.
    let inner = pattern("List", "Cons", vec![MatchPattern::Literal(Const::I32(2)), MatchPattern::Wildcard]);
    let arms = vec![
        (MatchPattern::Wildcard, num(0)),
        (pattern("List", "Cons", vec![MatchPattern::Wildcard, inner]), num(1)),
    ];
    let list = make("List", "Cons", vec![num(1), make("List", "Nil", vec![])]);
    assert_eq!(run("i32", matching(list, arms)).0, Ok(Val::Num(0)));
}

#[test]
fn nested_patterns_bind_the_inner_values() {
    let inner =
        pattern("List", "Cons", vec![MatchPattern::Var(s("second")), MatchPattern::Wildcard]);
    let arms = vec![
        (MatchPattern::Wildcard, num(0)),
        (pattern("List", "Cons", vec![MatchPattern::Var(s("first")), inner]), var("second")),
    ];
    let list = make(
        "List",
        "Cons",
        vec![num(1), make("List", "Cons", vec![num(2), make("List", "Nil", vec![])])],
    );
    assert_eq!(run("i32", matching(list, arms)).0, Ok(Val::Num(2)));
}

#[test]
fn the_matched_value_is_computed_once() {
    let printed = Expr::Sequence(
        Box::new(Expr::FuncCall(here("print"), vec![Rc::new(num(9))])),
        Box::new(make("Option", "Some", vec![num(5)])),
    );
    let (result, out) = run("i32", matching(printed, option_arms()));
    assert_eq!(result, Ok(Val::Num(5)));
    assert_eq!(out, "9");
}

#[test]
fn a_conditional_with_a_branch_that_exits_has_the_value_of_the_other() {
    let e = Expr::If(
        Box::new(Expr::Const(Const::Bool(false))),
        Rc::new(Expr::FuncCall(here("exit"), vec![Rc::new(num(1))])),
        Box::new(num(5)),
    );
    assert_eq!(run("i32", e).0, Ok(Val::Num(5)));
    let e = Expr::If(
        Box::new(Expr::Const(Const::Bool(true))),
        Rc::new(Expr::FuncCall(here("exit"), vec![Rc::new(num(3))])),
        Box::new(num(5)),
    );
    assert_eq!(run("i32", e).0, Err(Stop::Exit(3)));
}

#[test]
fn parameters_are_passed_by_position() {
    let sub = Function {
        args: vec![
            ParamDef { name: s("a"), param_type: here("i32") },
            ParamDef { name: s("b"), param_type: here("i32") },
        ],
        ret_type: here("i32"),
        body: Expr::FuncCall(here("sub"), vec![Rc::new(var("a")), Rc::new(var("b"))]),
    };
    let test = Function {
        args: vec![],
        ret_type: here("i32"),
        body: Expr::FuncCall(here("minus"), vec![Rc::new(num(10)), Rc::new(num(3))]),
    };
    let main =
        Function { args: vec![], ret_type: here("void"), body: Expr::Const(Const::Void) };
    let module = Module {
        imports: vec![],
        types: vec![],
        functions: vec![
            (s("minus"), vec![(vec![here("i32"), here("i32")], sub)]),
            (s("test"), vec![(vec![], test)]),
            (s("main"), vec![(vec![], main)]),
        ],
    };
    let binary = type_check(&vec![(s("$m$"), module)], &s("$m$")).expect("well typed");
    let mut out = String::new();
    assert_eq!(call(&binary, "$m$test$0", vec![], &mut out), Ok(Val::Num(7)));
    assert_eq!(call(&binary, "main", vec![], &mut out), Ok(Val::Num(0)));
}
