//! What the checker reports.
use crate::text::{decimal, to_decimal};
use vstd::prelude::*;
use vstd::string::StringExecFns;

verus! {

/// A resolution or type error, with the construct that caused it.
#[derive(Debug, PartialEq, Eq)]
pub enum TypeError {
    /// No module of the program has this identity.
    ModuleNotFound(String),
    /// The program has no module of the identity given as entry.
    MainModuleNotFound,
    /// The entry module has no function named `main`.
    MainNotFound,
    /// The entry module has no `main` without parameters.
    MainSignatureNotFound,
    /// The entry function is not among the checked functions.
    MainMissing,
    /// The entry function does not return `void`.
    MainNotVoid,
    /// A function has a parameter of type `void`.
    VoidParameter,
    /// A `let` binds a value of type `void`.
    VoidVariable,
    /// No type of this name is defined where it was looked for.
    TypeNotFound(String),
    /// The module has no import of this alias.
    UnresolvedImport(String),
    /// A field was read of a case that the type does not have.
    CaseNotFound { case: String, ty: String },
    /// A field was read at an index that the case does not have.
    FieldIndexOutOfBounds { index: usize, ty: String, case: String },
    /// A value was tested for a case that the type does not have.
    NotACase { case: String, ty: String },
    /// A value was tested for a case of another type than its own.
    CaseTypeMismatch { expected: String, found: String },
    /// A case of `fields` fields was built with `values` values.
    FieldCountMismatch { ty: String, case: String, fields: usize, values: usize },
    /// No variable of this name is in scope.
    VariableNotFound(String),
    /// No function of this name takes arguments of these types. `module`
    /// is the alias that qualified the call, if one did.
    FunctionNotFound { module: Option<String>, name: String, signature: Vec<String> },
    /// An expression has another type than its place asks for.
    TypeMismatch { expected: String, found: String },
}

/// The model of `TypeError`: the same value over sequences of characters.
pub enum TypeErrorView {
    ModuleNotFound(Seq<char>),
    MainModuleNotFound,
    MainNotFound,
    MainSignatureNotFound,
    MainMissing,
    MainNotVoid,
    VoidParameter,
    VoidVariable,
    TypeNotFound(Seq<char>),
    UnresolvedImport(Seq<char>),
    CaseNotFound { case: Seq<char>, ty: Seq<char> },
    FieldIndexOutOfBounds { index: usize, ty: Seq<char>, case: Seq<char> },
    NotACase { case: Seq<char>, ty: Seq<char> },
    CaseTypeMismatch { expected: Seq<char>, found: Seq<char> },
    FieldCountMismatch { ty: Seq<char>, case: Seq<char>, fields: usize, values: usize },
    VariableNotFound(Seq<char>),
    FunctionNotFound { module: Option<Seq<char>>, name: Seq<char>, signature: Seq<Seq<char>> },
    TypeMismatch { expected: Seq<char>, found: Seq<char> },
}

impl DeepView for TypeError {
    type V = TypeErrorView;

    open spec fn deep_view(&self) -> TypeErrorView {
        match self {
            TypeError::ModuleNotFound(id) => TypeErrorView::ModuleNotFound(id@),
            TypeError::MainModuleNotFound => TypeErrorView::MainModuleNotFound,
            TypeError::MainNotFound => TypeErrorView::MainNotFound,
            TypeError::MainSignatureNotFound => TypeErrorView::MainSignatureNotFound,
            TypeError::MainMissing => TypeErrorView::MainMissing,
            TypeError::MainNotVoid => TypeErrorView::MainNotVoid,
            TypeError::VoidParameter => TypeErrorView::VoidParameter,
            TypeError::VoidVariable => TypeErrorView::VoidVariable,
            TypeError::TypeNotFound(name) => TypeErrorView::TypeNotFound(name@),
            TypeError::UnresolvedImport(alias) => TypeErrorView::UnresolvedImport(alias@),
            TypeError::CaseNotFound { case, ty } => TypeErrorView::CaseNotFound {
                case: case@,
                ty: ty@,
            },
            TypeError::FieldIndexOutOfBounds {
                index,
                ty,
                case,
            } => TypeErrorView::FieldIndexOutOfBounds { index: *index, ty: ty@, case: case@ },
            TypeError::NotACase { case, ty } => TypeErrorView::NotACase { case: case@, ty: ty@ },
            TypeError::CaseTypeMismatch { expected, found } => TypeErrorView::CaseTypeMismatch {
                expected: expected@,
                found: found@,
            },
            TypeError::FieldCountMismatch {
                ty,
                case,
                fields,
                values,
            } => TypeErrorView::FieldCountMismatch {
                ty: ty@,
                case: case@,
                fields: *fields,
                values: *values,
            },
            TypeError::VariableNotFound(name) => TypeErrorView::VariableNotFound(name@),
            TypeError::FunctionNotFound {
                module,
                name,
                signature,
            } => TypeErrorView::FunctionNotFound {
                module: module.deep_view(),
                name: name@,
                signature: signature.deep_view(),
            },
            TypeError::TypeMismatch { expected, found } => TypeErrorView::TypeMismatch {
                expected: expected@,
                found: found@,
            },
        }
    }
}

/// The model of a checker's answer.
pub open spec fn result_view<T: DeepView>(r: Result<T, TypeError>) -> Result<T::V, TypeErrorView> {
    match r {
        Ok(t) => Ok(t.deep_view()),
        Err(e) => Err(e.deep_view()),
    }
}

/// The first `n` of `names`, each between double quotes, with a comma
/// and a space between two of them.
pub open spec fn quoted_list(names: Seq<Seq<char>>, n: nat) -> Seq<char>
    decreases n,
{
    if n == 0 || n > names.len() {
        seq![]
    } else if n == 1 {
        "\""@ + names[0] + "\""@
    } else {
        quoted_list(names, (n - 1) as nat) + ", "@ + "\""@ + names[n - 1] + "\""@
    }
}

/// A signature as it is shown: the types, quoted, between brackets.
pub open spec fn signature_text(signature: Seq<Seq<char>>) -> Seq<char> {
    "["@ + quoted_list(signature, signature.len()) + "]"@
}

/// The text of an error: what went wrong, with the construct that caused
/// it.
pub open spec fn message_text(e: TypeErrorView) -> Seq<char> {
    match e {
        TypeErrorView::ModuleNotFound(id) => "Could not find module "@ + id,
        TypeErrorView::MainModuleNotFound => "Could not find main module"@,
        TypeErrorView::MainNotFound => "Could not find function named main"@,
        TypeErrorView::MainSignatureNotFound => "Could not find main function with no arguments"@,
        TypeErrorView::MainMissing => "Could not find main function"@,
        TypeErrorView::MainNotVoid => "Main function has to return void"@,
        TypeErrorView::VoidParameter => "Function parameter type Void is prohibited"@,
        TypeErrorView::VoidVariable => "Variables of type void are not allowed"@,
        TypeErrorView::TypeNotFound(name) => "Type "@ + name + " not found"@,
        TypeErrorView::UnresolvedImport(alias) => "Unresolved import: "@ + alias,
        TypeErrorView::CaseNotFound { case, ty } => "Could not find case "@ + case + " for "@ + ty,
        TypeErrorView::FieldIndexOutOfBounds { index, ty, case } => "Index "@ + decimal(
            index as nat,
        ) + " out of bound for "@ + ty + "."@ + case,
        TypeErrorView::NotACase { case, ty } => case + " is not a case of "@ + ty,
        TypeErrorView::CaseTypeMismatch { expected, found } => "Can not match type "@ + expected
            + " to type "@ + found,
        TypeErrorView::FieldCountMismatch { ty, case, fields, values } => ty + "."@ + case
            + " expects "@ + decimal(fields as nat) + " fields, got "@ + decimal(values as nat),
        TypeErrorView::VariableNotFound(name) => "Variable "@ + name + " not found"@,
        TypeErrorView::FunctionNotFound { module, name, signature } => match module {
            None => "Could not find function "@ + name + " with signature "@ + signature_text(
                signature,
            ),
            Some(alias) => "Could not find function "@ + alias + "::"@ + name
                + " with signature "@ + signature_text(signature),
        },
        TypeErrorView::TypeMismatch { expected, found } => "Expected "@ + expected
            + ", but found "@ + found,
    }
}

/// Writes a signature as it is shown.
fn write_signature(out: &mut String, signature: &Vec<String>)
    ensures
        final(out)@ == old(out)@ + signature_text(signature.deep_view()),
{
    let ghost start = out@;
    let ghost names = signature.deep_view();
    out.append("[");
    let mut i: usize = 0;
    assert(out@ =~= start + "["@ + quoted_list(names, 0));
    while i < signature.len()
        invariant
            i <= signature.len(),
            names == signature.deep_view(),
            out@ == start + "["@ + quoted_list(names, i as nat),
        decreases signature.len() - i,
    {
        let ghost before = out@;
        if i > 0 {
            out.append(", ");
        }
        out.append("\"");
        out.append(signature[i].as_str());
        out.append("\"");
        proof {
            assert(names[i as int] == signature[i as int]@);
            if i == 0 {
                assert(out@ =~= start + "["@ + ("\""@ + names[0] + "\""@));
            } else {
                assert(out@ =~= start + "["@ + (quoted_list(names, i as nat) + ", "@ + "\""@
                    + names[i as int] + "\""@));
            }
        }
        i += 1;
    }
    out.append("]");
    assert(out@ =~= start + signature_text(names));
}

impl TypeError {
    /// The text of the error.
    pub fn message(&self) -> (r: String)
        ensures
            r@ == message_text(self.deep_view()),
    {
        let mut out = String::new();
        match self {
            TypeError::ModuleNotFound(id) => {
                out.append("Could not find module ");
                out.append(id.as_str());
            },
            TypeError::MainModuleNotFound => {
                out.append("Could not find main module");
            },
            TypeError::MainNotFound => {
                out.append("Could not find function named main");
            },
            TypeError::MainSignatureNotFound => {
                out.append("Could not find main function with no arguments");
            },
            TypeError::MainMissing => {
                out.append("Could not find main function");
            },
            TypeError::MainNotVoid => {
                out.append("Main function has to return void");
            },
            TypeError::VoidParameter => {
                out.append("Function parameter type Void is prohibited");
            },
            TypeError::VoidVariable => {
                out.append("Variables of type void are not allowed");
            },
            TypeError::TypeNotFound(name) => {
                out.append("Type ");
                out.append(name.as_str());
                out.append(" not found");
            },
            TypeError::UnresolvedImport(alias) => {
                out.append("Unresolved import: ");
                out.append(alias.as_str());
            },
            TypeError::CaseNotFound { case, ty } => {
                out.append("Could not find case ");
                out.append(case.as_str());
                out.append(" for ");
                out.append(ty.as_str());
            },
            TypeError::FieldIndexOutOfBounds { index, ty, case } => {
                out.append("Index ");
                out.append(to_decimal(*index as u64).as_str());
                out.append(" out of bound for ");
                out.append(ty.as_str());
                out.append(".");
                out.append(case.as_str());
            },
            TypeError::NotACase { case, ty } => {
                out.append(case.as_str());
                out.append(" is not a case of ");
                out.append(ty.as_str());
            },
            TypeError::CaseTypeMismatch { expected, found } => {
                out.append("Can not match type ");
                out.append(expected.as_str());
                out.append(" to type ");
                out.append(found.as_str());
            },
            TypeError::FieldCountMismatch { ty, case, fields, values } => {
                out.append(ty.as_str());
                out.append(".");
                out.append(case.as_str());
                out.append(" expects ");
                out.append(to_decimal(*fields as u64).as_str());
                out.append(" fields, got ");
                out.append(to_decimal(*values as u64).as_str());
            },
            TypeError::VariableNotFound(name) => {
                out.append("Variable ");
                out.append(name.as_str());
                out.append(" not found");
            },
            TypeError::FunctionNotFound { module, name, signature } => {
                out.append("Could not find function ");
                match module {
                    None => {},
                    Some(alias) => {
                        out.append(alias.as_str());
                        out.append("::");
                    },
                }
                out.append(name.as_str());
                out.append(" with signature ");
                write_signature(&mut out, signature);
            },
            TypeError::TypeMismatch { expected, found } => {
                out.append("Expected ");
                out.append(expected.as_str());
                out.append(", but found ");
                out.append(found.as_str());
            },
        }
        assert(out@ =~= message_text(self.deep_view()));
        out
    }
}

} // verus!
