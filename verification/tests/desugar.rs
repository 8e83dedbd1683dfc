use arena_lang::module::{Const, Expr, IdLoc, MatchPattern};
use arena_lang::type_check::desugar::{
    build_ifs_from_arms, clone_const, clone_expr, clone_id_loc, clone_pattern,
    get_condition_vars_pattern,
};
use std::rc::Rc;

fn s(text: &str) -> String {
    text.to_string()
}

fn here(name: &str) -> IdLoc {
    IdLoc::Here(s(name))
}

fn obj() -> Rc<Expr> {
    Rc::new(Expr::Var(s("$match_obj$")))
}

fn yes() -> Expr {
    Expr::Const(Const::Bool(true))
}

fn no() -> Expr {
    Expr::Const(Const::Bool(false))
}

fn field(of: Rc<Expr>, case: &str, index: usize) -> Rc<Expr> {
    Rc::new(Expr::GetTypeCaseField(of, s(case), index))
}

fn and_then(first: Expr, second: Expr) -> Expr {
    Expr::If(Box::new(first), Rc::new(second), Box::new(no()))
}

fn failure() -> Expr {
    Expr::Sequence(
        Box::new(Expr::FuncCall(
            here("print"),
            vec![Rc::new(Expr::Const(Const::Str(s("Not exhaustive match\n"))))],
        )),
        Box::new(Expr::FuncCall(here("exit"), vec![Rc::new(Expr::Const(Const::I32(1)))])),
    )
}

#[test]
fn a_literal_pattern_is_an_equality_test() {
    let (cond, vars) = get_condition_vars_pattern(obj(), &MatchPattern::Literal(Const::I32(7)));
    assert_eq!(
        cond,
        Expr::FuncCall(here("eq"), vec![Rc::new(Expr::Const(Const::I32(7))), obj()])
    );
    assert!(vars.is_empty());
}

#[test]
fn a_wildcard_always_matches_and_binds_nothing() {
    let (cond, vars) = get_condition_vars_pattern(obj(), &MatchPattern::Wildcard);
    assert_eq!(cond, yes());
    assert!(vars.is_empty());
}

#[test]
fn a_variable_always_matches_and_binds_the_value() {
    let (cond, vars) = get_condition_vars_pattern(obj(), &MatchPattern::Var(s("x")));
    assert_eq!(cond, yes());
    assert_eq!(vars, vec![(s("x"), obj())]);
}

#[test]
fn a_case_pattern_without_fields_is_a_case_test() {
    let pattern = MatchPattern::TypeCase(here("Option"), s("None"), vec![]);
    let (cond, vars) = get_condition_vars_pattern(obj(), &pattern);
    assert_eq!(cond, Expr::IsTypeCase(obj(), here("Option"), s("None")));
    assert!(vars.is_empty());
}

#[test]
fn a_case_pattern_tests_its_fields_one_after_the_other() {
    let pattern = MatchPattern::TypeCase(
        here("Pair"),
        s("Pair"),
        vec![MatchPattern::Var(s("a")), MatchPattern::Literal(Const::I32(1))],
    );
    let (cond, vars) = get_condition_vars_pattern(obj(), &pattern);
    let is_pair = Expr::IsTypeCase(obj(), here("Pair"), s("Pair"));
    let second_is_one = Expr::FuncCall(
        here("eq"),
        vec![Rc::new(Expr::Const(Const::I32(1))), field(obj(), "Pair", 1)],
    );
    assert_eq!(cond, and_then(and_then(is_pair, yes()), second_is_one));
    assert_eq!(vars, vec![(s("a"), field(obj(), "Pair", 0))]);
}

#[test]
fn a_nested_pattern_reads_through_the_outer_field() {
    let inner = MatchPattern::TypeCase(
        here("List"),
        s("Cons"),
        vec![MatchPattern::Var(s("h")), MatchPattern::Wildcard],
    );
    let pattern =
        MatchPattern::TypeCase(here("List"), s("Cons"), vec![MatchPattern::Wildcard, inner]);
    let (cond, vars) = get_condition_vars_pattern(obj(), &pattern);
    let tail = field(obj(), "Cons", 1);
    let tail_is_cons = Expr::IsTypeCase(tail.clone(), here("List"), s("Cons"));
    let inner_cond = and_then(and_then(tail_is_cons, yes()), yes());
    let outer_is_cons = Expr::IsTypeCase(obj(), here("List"), s("Cons"));
    assert_eq!(cond, and_then(and_then(outer_is_cons, yes()), inner_cond));
    assert_eq!(vars, vec![(s("h"), field(tail, "Cons", 0))]);
}

#[test]
fn no_arms_leave_the_failure() {
    assert_eq!(build_ifs_from_arms(&vec![]), failure());
}

#[test]
fn each_arm_is_a_conditional_around_the_arms_before_it() {
    let arms = vec![
        (MatchPattern::Literal(Const::I32(1)), Rc::new(Expr::Const(Const::I32(10)))),
        (MatchPattern::Var(s("n")), Rc::new(Expr::Var(s("n")))),
    ];
    let first = Expr::If(
        Box::new(Expr::FuncCall(
            here("eq"),
            vec![Rc::new(Expr::Const(Const::I32(1))), obj()],
        )),
        Rc::new(Expr::Const(Const::I32(10))),
        Box::new(failure()),
    );
    let second = Expr::If(
        Box::new(yes()),
        Rc::new(Expr::Let(s("n"), obj(), Rc::new(Expr::Var(s("n"))))),
        Box::new(first),
    );
    assert_eq!(build_ifs_from_arms(&arms), second);
}

#[test]
fn the_first_binding_of_an_arm_is_the_outermost_let() {
    let pattern = MatchPattern::TypeCase(
        here("Pair"),
        s("Pair"),
        vec![MatchPattern::Var(s("a")), MatchPattern::Var(s("b"))],
    );
    let arms = vec![(pattern, Rc::new(Expr::Var(s("b"))))];
    match build_ifs_from_arms(&arms) {
        Expr::If(_, then_expr, _) => {
            assert_eq!(
                *then_expr,
                Expr::Let(
                    s("a"),
                    field(obj(), "Pair", 0),
                    Rc::new(Expr::Let(
                        s("b"),
                        field(obj(), "Pair", 1),
                        Rc::new(Expr::Var(s("b")))
                    )),
                )
            );
        }
        other => panic!("not a conditional: {:?}", other),
    }
}

#[test]
fn copies_equal_what_they_copy() {
    for c in [Const::Bool(true), Const::U8(3), Const::I32(-4), Const::Str(s("x")), Const::Void] {
        assert_eq!(clone_const(&c), c);
    }
    assert_eq!(clone_id_loc(&here("a")), here("a"));
    assert_eq!(
        clone_id_loc(&IdLoc::Other(s("m"), s("a"))),
        IdLoc::Other(s("m"), s("a"))
    );
}

#[test]
fn a_copy_of_an_expression_is_equal_to_it() {
    let arms = vec![
        (
            MatchPattern::TypeCase(
                here("List"),
                s("Cons"),
                vec![MatchPattern::Var(s("h")), MatchPattern::Wildcard],
            ),
            Rc::new(Expr::FuncCall(
                IdLoc::Other(s("lib"), s("f")),
                vec![Rc::new(Expr::Var(s("h"))), Rc::new(Expr::Const(Const::Str(s("x"))))],
            )),
        ),
        (MatchPattern::Literal(Const::U8(1)), Rc::new(Expr::Const(Const::Void))),
    ];
    let e = Expr::Let(
        s("v"),
        Rc::new(Expr::TypeCase(here("List"), s("Nil"), vec![Expr::Const(Const::Bool(true))])),
        Rc::new(Expr::If(
            Box::new(Expr::IsTypeCase(obj(), here("List"), s("Nil"))),
            Rc::new(Expr::Match(Box::new(Expr::Var(s("v"))), arms)),
            Box::new(Expr::Sequence(
                Box::new(Expr::GetTypeCaseField(obj(), s("Cons"), 1)),
                Box::new(Expr::Const(Const::I32(-3))),
            )),
        )),
    );
    assert_eq!(clone_expr(&e), e);
    let p = MatchPattern::TypeCase(here("T"), s("C"), vec![MatchPattern::Wildcard]);
    assert_eq!(clone_pattern(&p), p);
}
