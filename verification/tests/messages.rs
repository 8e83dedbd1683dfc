use arena_lang::codegen::ir::CodegenError;
use arena_lang::type_check::error::TypeError;

fn s(text: &str) -> String {
    text.to_string()
}

#[test]
fn every_type_error_names_its_construct() {
    let cases = vec![
        (TypeError::ModuleNotFound(s("$m$")), "Could not find module $m$"),
        (TypeError::MainModuleNotFound, "Could not find main module"),
        (TypeError::MainNotFound, "Could not find function named main"),
        (TypeError::MainSignatureNotFound, "Could not find main function with no arguments"),
        (TypeError::MainMissing, "Could not find main function"),
        (TypeError::MainNotVoid, "Main function has to return void"),
        (TypeError::VoidParameter, "Function parameter type Void is prohibited"),
        (TypeError::VoidVariable, "Variables of type void are not allowed"),
        (TypeError::TypeNotFound(s("Tree")), "Type Tree not found"),
        (TypeError::UnresolvedImport(s("lib")), "Unresolved import: lib"),
        (
            TypeError::CaseNotFound { case: s("Twig"), ty: s("$m$Tree") },
            "Could not find case Twig for $m$Tree",
        ),
        (
            TypeError::FieldIndexOutOfBounds { index: 12, ty: s("$m$Tree"), case: s("Leaf") },
            "Index 12 out of bound for $m$Tree.Leaf",
        ),
        (
            TypeError::NotACase { case: s("Twig"), ty: s("$m$Tree") },
            "Twig is not a case of $m$Tree",
        ),
        (
            TypeError::CaseTypeMismatch { expected: s("$m$Tree"), found: s("i32") },
            "Can not match type $m$Tree to type i32",
        ),
        (
            TypeError::FieldCountMismatch { ty: s("$m$Tree"), case: s("Node"), fields: 3, values: 0 },
            "$m$Tree.Node expects 3 fields, got 0",
        ),
        (TypeError::VariableNotFound(s("x")), "Variable x not found"),
        (
            TypeError::FunctionNotFound { module: None, name: s("f"), signature: vec![] },
            "Could not find function f with signature []",
        ),
        (
            TypeError::FunctionNotFound { module: None, name: s("f"), signature: vec![s("i32")] },
            "Could not find function f with signature [\"i32\"]",
        ),
        (
            TypeError::FunctionNotFound {
                module: Some(s("lib")),
                name: s("f"),
                signature: vec![s("i32"), s("$m$Tree"), s("bool")],
            },
            "Could not find function lib::f with signature [\"i32\", \"$m$Tree\", \"bool\"]",
        ),
        (
            TypeError::TypeMismatch { expected: s("i32"), found: s("bool") },
            "Expected i32, but found bool",
        ),
    ];
    for (error, text) in cases {
        assert_eq!(error.message(), text);
    }
}

#[test]
fn a_signature_is_shown_as_the_standard_formatting_shows_it() {
    let signature = vec![s("i32"), s("str")];
    let error =
        TypeError::FunctionNotFound { module: None, name: s("f"), signature: vec![s("i32"), s("str")] };
    assert_eq!(
        error.message(),
        format!("Could not find function {} with signature {:?}", "f", signature)
    );
}

#[test]
fn every_internal_error_names_what_was_missing() {
    let cases = vec![
        (CodegenError::UnknownFunction(s("f")), "Could not find function f"),
        (
            CodegenError::MissingArgument { function: s("add_i32"), index: 1 },
            "Could not find argument 1 of add_i32",
        ),
        (CodegenError::StructNotFound(s("$m$T")), "Could not find llvm struct $m$T"),
        (CodegenError::TypeNotFound(s("$m$T")), "Could not find type def in binary: $m$T"),
        (
            CodegenError::CaseNotFound { ty: s("$m$T"), case: s("C") },
            "Internal error: Could not find case index: $m$T.C",
        ),
        (
            CodegenError::FieldNotFound { ty: s("$m$T"), case: s("C"), index: 4 },
            "Internal error: Could not find field 4 of $m$T.C",
        ),
        (CodegenError::VariableNotFound(s("x")), "Could not find key x"),
        (CodegenError::MainNotFound, "Could not find main codegen"),
        (CodegenError::LayoutTooLarge(s("$m$T")), "Internal error: Too many cases or fields: $m$T"),
    ];
    for (error, text) in cases {
        assert_eq!(error.message(), text);
    }
}
