use arena_lang::codegen::build_in::{
    get_build_in_signature, get_linked_func_signature, is_linked_func_name, BuildIn, Inline,
};
use arena_lang::codegen::ir::{BinaryOp, IntPredicate, UnaryOp};

fn types(names: &[&str]) -> Vec<String> {
    names.iter().map(|n| n.to_string()).collect()
}

fn row(name: &str, args: &[&str]) -> Option<(String, String)> {
    get_build_in_signature(name, &types(args))
}

fn hit(symbol: &str, ret: &str) -> Option<(String, String)> {
    Some((symbol.to_string(), ret.to_string()))
}

#[test]
fn eq_on_two_ints_is_integer_equality() {
    assert_eq!(row("eq", &["i32", "i32"]), hit("eq_i32", "bool"));
}

#[test]
fn eq_on_int_and_bool_has_no_signature() {
    assert_eq!(row("eq", &["i32", "bool"]), None);
    assert_eq!(row("eq", &["bool", "i32"]), None);
}

#[test]
fn print_is_overloaded_by_argument_type() {
    assert_eq!(row("print", &["str"]), hit("print_str", "void"));
    assert_eq!(row("print", &["u8"]), hit("print_u8", "void"));
    assert_eq!(row("print", &["i32"]), hit("print_i32", "void"));
    assert_eq!(row("print", &["bool"]), None);
}

#[test]
fn exit_never_returns() {
    assert_eq!(row("exit", &["i32"]), hit("exit", "$exit$"));
}

#[test]
fn char_at_takes_text_and_index() {
    assert_eq!(row("char_at", &["str", "i32"]), hit("char_at", "u8"));
    assert_eq!(row("char_at", &["i32", "str"]), None);
}

#[test]
fn every_comparison_returns_bool() {
    for op in ["eq", "neq", "lt", "le", "gt", "ge"] {
        for ty in ["i32", "u8"] {
            assert_eq!(row(op, &[ty, ty]), hit(&format!("{}_{}", op, ty), "bool"));
        }
    }
    assert_eq!(row("eq", &["bool", "bool"]), hit("eq_bool", "bool"));
    assert_eq!(row("neq", &["bool", "bool"]), hit("neq_bool", "bool"));
    assert_eq!(row("lt", &["bool", "bool"]), None);
}

#[test]
fn arithmetic_returns_the_type_of_its_arguments() {
    for op in ["add", "sub", "mul", "div", "mod"] {
        for ty in ["i32", "u8"] {
            assert_eq!(row(op, &[ty, ty]), hit(&format!("{}_{}", op, ty), ty));
        }
        assert_eq!(row(op, &["i32", "u8"]), None);
    }
    assert_eq!(row("neg", &["i32"]), hit("neg_i32", "i32"));
    assert_eq!(row("neg", &["u8"]), hit("neg_u8", "u8"));
    assert_eq!(row("not", &["bool"]), hit("not_bool", "bool"));
    assert_eq!(row("not", &["i32"]), None);
}

#[test]
fn no_built_in_takes_no_or_three_arguments() {
    assert_eq!(row("print", &[]), None);
    assert_eq!(row("add", &["i32", "i32", "i32"]), None);
}

#[test]
fn unknown_name_has_no_signature() {
    assert_eq!(row("frobnicate", &["i32"]), None);
    assert_eq!(row("printf", &["str"]), None);
}

#[test]
fn build_in_names_round_trip() {
    for b in [
        BuildIn::print_str,
        BuildIn::printf,
        BuildIn::exit,
        BuildIn::malloc,
        BuildIn::eq_i32,
        BuildIn::neq_bool,
        BuildIn::stack_alloc,
        BuildIn::arc_ptr_access,
        BuildIn::arc_drop_ptr,
        BuildIn::tgc_type_alloc,
        BuildIn::not_bool,
    ] {
        assert_eq!(BuildIn::from_str(b.as_str()), Some(b));
    }
    assert_eq!(BuildIn::eq_i32.as_str(), "eq_i32");
    assert_eq!(BuildIn::from_str("eq"), None);
    assert_eq!(BuildIn::from_str(""), None);
}

#[test]
fn linked_symbols_are_told_from_inline_ones() {
    assert!(is_linked_func_name(&"printf".to_string()));
    assert!(is_linked_func_name(&"exit".to_string()));
    assert!(is_linked_func_name(&"malloc".to_string()));
    assert!(is_linked_func_name(&"type_alloc".to_string()));
    assert!(!is_linked_func_name(&"eq_i32".to_string()));
    assert!(!is_linked_func_name(&"print_str".to_string()));
    assert!(!is_linked_func_name(&"nothing".to_string()));
    assert!(BuildIn::printf.is_linked());
    assert!(!BuildIn::char_at.is_linked());
}

#[test]
fn linked_signatures_are_fixed() {
    assert_eq!(get_linked_func_signature(&"printf".to_string()), (vec!["str"], "i32", true));
    assert_eq!(get_linked_func_signature(&"exit".to_string()), (vec!["i32"], "$exit$", false));
    assert_eq!(get_linked_func_signature(&"malloc".to_string()), (vec!["i64"], "i8*", false));
    assert_eq!(
        get_linked_func_signature(&"type_alloc".to_string()),
        (vec!["i64", "i8*"], "i8*", false)
    );
    assert_eq!(
        get_linked_func_signature(&"arc_drop_ptr".to_string()),
        (vec!["i8*", "i8*"], "void", false)
    );
    assert_eq!(get_linked_func_signature(&"init_heap".to_string()), (vec![], "void", false));
    assert_eq!(
        get_linked_func_signature(&"stack_alloc".to_string()),
        (vec!["i8*"], "i8*", false)
    );
}

#[test]
fn inline_kinds_name_their_results() {
    assert!(matches!(BuildIn::print_str.inline_kind(), Some(Inline::Print(None))));
    assert!(matches!(BuildIn::print_i32.inline_kind(), Some(Inline::Print(Some("%d")))));
    assert!(matches!(BuildIn::print_u8.inline_kind(), Some(Inline::Print(Some("%c")))));
    assert!(matches!(
        BuildIn::lt_u8.inline_kind(),
        Some(Inline::Compare(IntPredicate::SignedLess, "lttmp"))
    ));
    assert!(matches!(
        BuildIn::div_i32.inline_kind(),
        Some(Inline::Arith(BinaryOp::SignedDiv, "divtmp"))
    ));
    assert!(matches!(BuildIn::not_bool.inline_kind(), Some(Inline::Unary(UnaryOp::Not, "nottmp"))));
    assert!(BuildIn::printf.inline_kind().is_none());
}
