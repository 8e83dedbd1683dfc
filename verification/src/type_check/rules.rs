//! The typing rules, as functions on the models of the syntax tree.
//!
//! `check_expr` says which typed expression, or which error, belongs to an
//! expression in a scope. The executable checker is proved to compute it.
use crate::binary::{BinExprView, BinTypeView, find_case, TypedExprView};
use crate::codegen::build_in::build_in_signature;
use crate::lookup::{lookup, lookup_last};
use crate::module::{ConstView, ExprView, IdLocView};
use crate::type_check::desugar::{arms_ifs, lemma_arms_ifs_weight, MATCH_OBJ, weight, weight_all};
use crate::type_check::error::TypeErrorView;
use crate::types::{BOOL_TYPE, EXIT_TYPE, I32_TYPE, STR_TYPE, U8_TYPE, VOID_TYPE};
use vstd::prelude::*;

verus! {

/// One overload in the table of functions: the identifiers of its
/// parameter types, its own global identifier, and the identifier of its
/// return type.
#[derive(Debug, PartialEq, Eq)]
pub struct FnSig {
    pub params: Vec<String>,
    pub id: String,
    pub ret_type: String,
}

/// The model of `FnSig`: the same value over sequences of characters.
pub struct FnSigView {
    pub params: Seq<Seq<char>>,
    pub id: Seq<char>,
    pub ret_type: Seq<char>,
}

impl DeepView for FnSig {
    type V = FnSigView;

    open spec fn deep_view(&self) -> FnSigView {
        FnSigView { params: self.params.deep_view(), id: self.id@, ret_type: self.ret_type@ }
    }
}

/// The tables of the linked program, each an association list.
///
/// `type_ids` maps a module identity to the global identifiers of the
/// module's types by their local names; `function_ids` maps it to the
/// module's functions by name, each with its overloads in declaration
/// order; `type_defs` maps the global identifier of a type to its cases.
#[derive(Debug, PartialEq, Eq)]
pub struct Tables {
    pub type_ids: Vec<(String, Vec<(String, String)>)>,
    pub function_ids: Vec<(String, Vec<(String, Vec<FnSig>)>)>,
    pub type_defs: Vec<(String, crate::binary::BinType)>,
}

/// The model of `Tables`: the same value over sequences of characters.
pub struct TablesView {
    pub type_ids: Seq<(Seq<char>, Seq<(Seq<char>, Seq<char>)>)>,
    pub function_ids: Seq<(Seq<char>, Seq<(Seq<char>, Seq<FnSigView>)>)>,
    pub type_defs: Seq<(Seq<char>, BinTypeView)>,
}

impl DeepView for Tables {
    type V = TablesView;

    open spec fn deep_view(&self) -> TablesView {
        TablesView {
            type_ids: self.type_ids.deep_view(),
            function_ids: self.function_ids.deep_view(),
            type_defs: self.type_defs.deep_view(),
        }
    }
}

/// What an expression is checked in: the tables, the identity of the
/// module it stands in, and that module's imports by alias.
pub struct Context {
    pub tables: TablesView,
    pub module_id: Seq<char>,
    pub imports: Seq<(Seq<char>, Seq<char>)>,
}

/// A scope: the variables in reach with their types, the innermost last.
pub type Scope = Seq<(Seq<char>, Seq<char>)>;

/// The first overload whose parameter types are exactly `arg_types`.
pub open spec fn find_signature(sigs: Seq<FnSigView>, arg_types: Seq<Seq<char>>) -> Option<
    FnSigView,
>
    decreases sigs.len(),
{
    if sigs.len() == 0 {
        None
    } else if sigs[0].params == arg_types {
        Some(sigs[0])
    } else {
        find_signature(sigs.skip(1), arg_types)
    }
}

/// The table of type identifiers: for each module, by its identity, the
/// global identifiers of its types by their local names.
pub type TypeIds = Seq<(Seq<char>, Seq<(Seq<char>, Seq<char>)>)>;

/// The global identifier that a type reference stands for, seen from the
/// module `module_id` with the imports `imports`.
///
/// A local name is the module's own type of that name, or else itself (a
/// built-in type). A qualified name must be a type of the imported module.
pub open spec fn resolve_type(
    type_ids: TypeIds,
    imports: Seq<(Seq<char>, Seq<char>)>,
    module_id: Seq<char>,
    ty: IdLocView,
) -> Result<Seq<char>, TypeErrorView> {
    match ty {
        IdLocView::Here(name) => match lookup(type_ids, module_id) {
            None => Err(TypeErrorView::ModuleNotFound(module_id)),
            Some(types) => match lookup(types, name) {
                Some(id) => Ok(id),
                None => Ok(name),
            },
        },
        IdLocView::Other(alias, name) => resolve_imported_type(type_ids, imports, alias, name),
    }
}

/// The global identifier of the type `name` of the module imported as
/// `alias`.
pub open spec fn resolve_imported_type(
    type_ids: TypeIds,
    imports: Seq<(Seq<char>, Seq<char>)>,
    alias: Seq<char>,
    name: Seq<char>,
) -> Result<Seq<char>, TypeErrorView> {
    match lookup(imports, alias) {
        None => Err(TypeErrorView::UnresolvedImport(alias)),
        Some(other) => match lookup(type_ids, other) {
            None => Err(TypeErrorView::ModuleNotFound(other)),
            Some(types) => match lookup(types, name) {
                Some(id) => Ok(id),
                None => Err(TypeErrorView::TypeNotFound(name)),
            },
        },
    }
}

/// The global identifier of a reference that must name a user type: as
/// `resolve_type`, but a local name that the module does not define is an
/// error.
pub open spec fn resolve_user_type(
    type_ids: TypeIds,
    imports: Seq<(Seq<char>, Seq<char>)>,
    module_id: Seq<char>,
    ty: IdLocView,
) -> Result<Seq<char>, TypeErrorView> {
    match ty {
        IdLocView::Here(name) => match lookup(type_ids, module_id) {
            None => Err(TypeErrorView::ModuleNotFound(module_id)),
            Some(types) => match lookup(types, name) {
                Some(id) => Ok(id),
                None => Err(TypeErrorView::TypeNotFound(name)),
            },
        },
        IdLocView::Other(alias, name) => resolve_imported_type(type_ids, imports, alias, name),
    }
}

/// Whether an expression of type `found` may stand where `expected` is
/// asked for: the types are the same, or one of them is the type of what
/// never returns.
pub open spec fn type_fits(expected: Seq<char>, found: Seq<char>) -> bool {
    expected == EXIT_TYPE@ || found == EXIT_TYPE@ || expected == found
}

/// `e` itself where its type fits `expected`, else the mismatch.
pub open spec fn expect_type_rule(expected: Seq<char>, e: TypedExprView) -> Result<
    TypedExprView,
    TypeErrorView,
> {
    if type_fits(expected, e.expr_type) {
        Ok(e)
    } else {
        Err(TypeErrorView::TypeMismatch { expected, found: e.expr_type })
    }
}

/// The type of a conditional whose branches have the types `then_type`
/// and `else_type`: the type of the branch that returns.
pub open spec fn unify(then_type: Seq<char>, else_type: Seq<char>) -> Seq<char> {
    if then_type == EXIT_TYPE@ {
        else_type
    } else {
        then_type
    }
}

/// The type of a literal.
pub open spec fn const_type(c: ConstView) -> Seq<char> {
    match c {
        ConstView::Bool(_) => BOOL_TYPE@,
        ConstView::U8(_) => U8_TYPE@,
        ConstView::I32(_) => I32_TYPE@,
        ConstView::Str(_) => STR_TYPE@,
        ConstView::Void => VOID_TYPE@,
    }
}

/// The types of typed expressions, in order.
pub open spec fn types_of(exprs: Seq<TypedExprView>) -> Seq<Seq<char>> {
    Seq::new(exprs.len(), |i: int| exprs[i].expr_type)
}

/// The overload of `name` in the module `module_id` that takes exactly
/// `arg_types`, if the module has one.
pub open spec fn find_function(
    tables: TablesView,
    module_id: Seq<char>,
    name: Seq<char>,
    arg_types: Seq<Seq<char>>,
) -> Result<Option<FnSigView>, TypeErrorView> {
    match lookup(tables.function_ids, module_id) {
        None => Err(TypeErrorView::ModuleNotFound(module_id)),
        Some(functions) => match lookup(functions, name) {
            None => Ok(None),
            Some(sigs) => Ok(find_signature(sigs, arg_types)),
        },
    }
}

/// Overload resolution: the call of `id` with the checked arguments
/// `args`.
///
/// A local name is first looked for among the module's own functions, then
/// in the table of built-ins; a qualified name only among the functions of
/// the imported module. The argument types must match exactly.
pub open spec fn resolve_call(cx: Context, id: IdLocView, args: Seq<TypedExprView>) -> Result<
    TypedExprView,
    TypeErrorView,
> {
    let arg_types = types_of(args);
    match id {
        IdLocView::Here(name) => match find_function(cx.tables, cx.module_id, name, arg_types) {
            Err(e) => Err(e),
            Ok(Some(sig)) => Ok(
                TypedExprView { expr: BinExprView::FuncCall(sig.id, args), expr_type: sig.ret_type },
            ),
            Ok(None) => match build_in_signature(name, arg_types) {
                Some((b, ret_type)) => Ok(
                    TypedExprView {
                        expr: BinExprView::FuncCall(b.name(), args),
                        expr_type: ret_type,
                    },
                ),
                None => Err(
                    TypeErrorView::FunctionNotFound { module: None, name, signature: arg_types },
                ),
            },
        },
        IdLocView::Other(alias, name) => match lookup(cx.imports, alias) {
            None => Err(TypeErrorView::UnresolvedImport(alias)),
            Some(other) => match find_function(cx.tables, other, name, arg_types) {
                Err(e) => Err(e),
                Ok(Some(sig)) => Ok(
                    TypedExprView {
                        expr: BinExprView::FuncCall(sig.id, args),
                        expr_type: sig.ret_type,
                    },
                ),
                Ok(None) => Err(
                    TypeErrorView::FunctionNotFound {
                        module: Some(alias),
                        name,
                        signature: arg_types,
                    },
                ),
            },
        },
    }
}

/// The read of field `index` of the case `case` of the checked value
/// `obj`.
pub open spec fn field_read(cx: Context, obj: TypedExprView, case: Seq<char>, index: usize) -> Result<
    TypedExprView,
    TypeErrorView,
> {
    match lookup(cx.tables.type_defs, obj.expr_type) {
        None => Err(TypeErrorView::TypeNotFound(obj.expr_type)),
        Some(def) => match find_case(def.cases, case) {
            None => Err(TypeErrorView::CaseNotFound { case, ty: obj.expr_type }),
            Some(case_def) => if index < case_def.fields.len() {
                Ok(
                    TypedExprView {
                        expr: BinExprView::GetTypeCaseField(Box::new(obj), case, index),
                        expr_type: case_def.fields[index as int],
                    },
                )
            } else {
                Err(
                    TypeErrorView::FieldIndexOutOfBounds {
                        index,
                        ty: obj.expr_type,
                        case: case_def.name,
                    },
                )
            },
        },
    }
}

/// The test whether the checked value `obj` is of the case `case` of the
/// type `ty`.
pub open spec fn case_test(cx: Context, obj: TypedExprView, ty: IdLocView, case: Seq<char>) -> Result<
    TypedExprView,
    TypeErrorView,
> {
    match resolve_user_type(cx.tables.type_ids, cx.imports, cx.module_id, ty) {
        Err(e) => Err(e),
        Ok(type_id) => if obj.expr_type != type_id {
            Err(TypeErrorView::CaseTypeMismatch { expected: type_id, found: obj.expr_type })
        } else {
            match lookup(cx.tables.type_defs, type_id) {
                None => Err(TypeErrorView::TypeNotFound(type_id)),
                Some(def) => match find_case(def.cases, case) {
                    None => Err(TypeErrorView::NotACase { case, ty: type_id }),
                    Some(_) => Ok(
                        TypedExprView {
                            expr: BinExprView::IsCase(Box::new(obj), case),
                            expr_type: BOOL_TYPE@,
                        },
                    ),
                },
            }
        },
    }
}

/// The type and the case that a construction `ty.case` names: the global
/// identifier of the type and the types of the fields.
pub open spec fn constructed_case(cx: Context, ty: IdLocView, case: Seq<char>) -> Result<
    (Seq<char>, Seq<Seq<char>>),
    TypeErrorView,
> {
    match resolve_user_type(cx.tables.type_ids, cx.imports, cx.module_id, ty) {
        Err(e) => Err(e),
        Ok(type_id) => match lookup(cx.tables.type_defs, type_id) {
            None => Err(TypeErrorView::TypeNotFound(type_id)),
            Some(def) => match find_case(def.cases, case) {
                None => Err(TypeErrorView::CaseNotFound { case, ty: type_id }),
                Some(case_def) => Ok((type_id, case_def.fields)),
            },
        },
    }
}

/// Every expression weighs something.
pub proof fn lemma_weight_positive(e: ExprView)
    ensures
        weight(e) >= 1,
{
}

/// The typing rules. `check_expr(cx, vars, e)` is the typed expression
/// that belongs to `e` in the scope `vars`, or the first error met when
/// the parts of `e` are checked in order.
pub open spec fn check_expr(cx: Context, vars: Scope, e: ExprView) -> Result<
    TypedExprView,
    TypeErrorView,
>
    decreases weight(e), 1nat,
{
    match e {
        ExprView::Const(c) => Ok(
            TypedExprView { expr: BinExprView::Const(c), expr_type: const_type(c) },
        ),
        ExprView::FuncCall(id, args) => match check_exprs(cx, vars, args) {
            Err(e) => Err(e),
            Ok(typed_args) => resolve_call(cx, id, typed_args),
        },
        ExprView::GetTypeCaseField(obj, case, index) => match check_expr(cx, vars, *obj) {
            Err(e) => Err(e),
            Ok(typed_obj) => field_read(cx, typed_obj, case, index),
        },
        ExprView::If(cond, then_expr, else_expr) => match check_expr(cx, vars, *cond) {
            Err(e) => Err(e),
            Ok(typed_cond) => match expect_type_rule(BOOL_TYPE@, typed_cond) {
                Err(e) => Err(e),
                Ok(checked_cond) => match check_expr(cx, vars, *then_expr) {
                    Err(e) => Err(e),
                    Ok(typed_then) => match check_expr(cx, vars, *else_expr) {
                        Err(e) => Err(e),
                        Ok(typed_else) => match expect_type_rule(
                            typed_then.expr_type,
                            typed_else,
                        ) {
                            Err(e) => Err(e),
                            Ok(checked_else) => Ok(
                                TypedExprView {
                                    expr: BinExprView::If(
                                        Box::new(checked_cond),
                                        Box::new(typed_then),
                                        Box::new(checked_else),
                                    ),
                                    expr_type: unify(
                                        typed_then.expr_type,
                                        checked_else.expr_type,
                                    ),
                                },
                            ),
                        },
                    },
                },
            },
        },
        ExprView::IsTypeCase(obj, ty, case) => match check_expr(cx, vars, *obj) {
            Err(e) => Err(e),
            Ok(typed_obj) => case_test(cx, typed_obj, ty, case),
        },
        ExprView::Let(name, definition, body) => check_let(cx, vars, name, *definition, *body),
        ExprView::Match(obj, arms) => {
            proof {
                lemma_arms_ifs_weight(arms);
            }
            check_let(cx, vars, MATCH_OBJ@, *obj, arms_ifs(arms))
        },
        ExprView::Sequence(first, second) => match check_expr(cx, vars, *first) {
            Err(e) => Err(e),
            Ok(typed_first) => match check_expr(cx, vars, *second) {
                Err(e) => Err(e),
                Ok(typed_second) => Ok(
                    TypedExprView {
                        expr: BinExprView::Sequence(Box::new(typed_first), Box::new(typed_second)),
                        expr_type: typed_second.expr_type,
                    },
                ),
            },
        },
        ExprView::TypeCase(ty, case, args) => match constructed_case(cx, ty, case) {
            Err(e) => Err(e),
            Ok((type_id, fields)) => if fields.len() != args.len() {
                Err(
                    TypeErrorView::FieldCountMismatch {
                        ty: type_id,
                        case,
                        fields: fields.len() as usize,
                        values: args.len() as usize,
                    },
                )
            } else {
                match check_fields(cx, vars, args, fields) {
                    Err(e) => Err(e),
                    Ok(typed_args) => Ok(
                        TypedExprView {
                            expr: BinExprView::TypeCase(type_id, case, typed_args),
                            expr_type: type_id,
                        },
                    ),
                }
            },
        },
        ExprView::Var(name) => match lookup_last(vars, name) {
            Some(ty) => Ok(TypedExprView { expr: BinExprView::Var(name), expr_type: ty }),
            None => Err(TypeErrorView::VariableNotFound(name)),
        },
    }
}

/// The rule of `let name = definition in body`: the definition is checked
/// in the scope `vars` and must not be of type `void`; the body is checked
/// in `vars` with `name` added; the type is that of the body.
pub open spec fn check_let(
    cx: Context,
    vars: Scope,
    name: Seq<char>,
    definition: ExprView,
    body: ExprView,
) -> Result<TypedExprView, TypeErrorView>
    decreases 1 + weight(definition) + weight(body), 0nat,
{
    match check_expr(cx, vars, definition) {
        Err(e) => Err(e),
        Ok(typed_def) => if typed_def.expr_type == VOID_TYPE@ {
            Err(TypeErrorView::VoidVariable)
        } else {
            match check_expr(cx, vars.push((name, typed_def.expr_type)), body) {
                Err(e) => Err(e),
                Ok(typed_body) => Ok(
                    TypedExprView {
                        expr: BinExprView::Let(name, Box::new(typed_def), Box::new(typed_body)),
                        expr_type: typed_body.expr_type,
                    },
                ),
            }
        },
    }
}

/// The expressions `exprs`, checked in order in the scope `vars`.
pub open spec fn check_exprs(cx: Context, vars: Scope, exprs: Seq<ExprView>) -> Result<
    Seq<TypedExprView>,
    TypeErrorView,
>
    decreases 1 + weight_all(exprs), 0nat,
{
    if exprs.len() == 0 {
        Ok(seq![])
    } else {
        proof {
            lemma_weight_positive(exprs.last());
        }
        match check_exprs(cx, vars, exprs.drop_last()) {
            Err(e) => Err(e),
            Ok(typed) => match check_expr(cx, vars, exprs.last()) {
                Err(e) => Err(e),
                Ok(t) => Ok(typed.push(t)),
            },
        }
    }
}

/// The field values `exprs` of a construction, checked in order, each
/// against the type that `fields` gives its position.
pub open spec fn check_fields(
    cx: Context,
    vars: Scope,
    exprs: Seq<ExprView>,
    fields: Seq<Seq<char>>,
) -> Result<Seq<TypedExprView>, TypeErrorView>
    decreases 1 + weight_all(exprs), 0nat,
{
    if exprs.len() == 0 {
        Ok(seq![])
    } else {
        proof {
            lemma_weight_positive(exprs.last());
        }
        match check_fields(cx, vars, exprs.drop_last(), fields) {
            Err(e) => Err(e),
            Ok(typed) => match check_expr(cx, vars, exprs.last()) {
                Err(e) => Err(e),
                Ok(t) => match expect_type_rule(fields[exprs.len() - 1], t) {
                    Err(e) => Err(e),
                    Ok(t) => Ok(typed.push(t)),
                },
            },
        }
    }
}

/// The type of a conditional is the unified type of its branches: where
/// one branch never returns, the type of the other; else the type that
/// both have.
pub proof fn lemma_if_type(
    cx: Context,
    vars: Scope,
    cond: ExprView,
    then_expr: ExprView,
    else_expr: ExprView,
)
    requires
        check_expr(
            cx,
            vars,
            ExprView::If(Box::new(cond), Box::new(then_expr), Box::new(else_expr)),
        ) is Ok,
    ensures
        check_expr(cx, vars, then_expr) is Ok,
        check_expr(cx, vars, else_expr) is Ok,
        ({
            let whole = check_expr(
                cx,
                vars,
                ExprView::If(Box::new(cond), Box::new(then_expr), Box::new(else_expr)),
            )->Ok_0.expr_type;
            let then_type = check_expr(cx, vars, then_expr)->Ok_0.expr_type;
            let else_type = check_expr(cx, vars, else_expr)->Ok_0.expr_type;
            &&& whole == unify(then_type, else_type)
            &&& then_type == EXIT_TYPE@ ==> whole == else_type
            &&& else_type == EXIT_TYPE@ ==> whole == then_type
            &&& then_type != EXIT_TYPE@ && else_type != EXIT_TYPE@ ==> whole == then_type && whole
                == else_type
        }),
{
}

/// A binding is in reach in its body.
pub proof fn lemma_binding_visible(cx: Context, vars: Scope, name: Seq<char>, ty: Seq<char>)
    ensures
        check_expr(cx, vars.push((name, ty)), ExprView::Var(name)) == Ok::<
            TypedExprView,
            TypeErrorView,
        >(TypedExprView { expr: BinExprView::Var(name), expr_type: ty }),
{
    assert(vars.push((name, ty)).last() == (name, ty));
}

/// A binding does not outlive its body: what follows a `let` is checked
/// in the scope that was in force before the `let`. So a variable that
/// the `let` shadowed has its first type again, and a variable that only
/// the `let` bound is not found.
pub proof fn lemma_binding_scoped(
    cx: Context,
    vars: Scope,
    name: Seq<char>,
    definition: ExprView,
    body: ExprView,
    after: ExprView,
)
    requires
        check_expr(
            cx,
            vars,
            ExprView::Let(name, Box::new(definition), Box::new(body)),
        ) is Ok,
    ensures
        match check_expr(
            cx,
            vars,
            ExprView::Sequence(
                Box::new(ExprView::Let(name, Box::new(definition), Box::new(body))),
                Box::new(after),
            ),
        ) {
            Ok(whole) => whole.expr matches BinExprView::Sequence(_, second) && check_expr(
                cx,
                vars,
                after,
            ) == Ok::<TypedExprView, TypeErrorView>(*second),
            Err(e) => check_expr(cx, vars, after) == Err::<TypedExprView, TypeErrorView>(e),
        },
{
}

/// The arms of a `match` bind nothing beyond the `match`: what follows it
/// is checked in the scope that was in force before it.
pub proof fn lemma_match_scoped(
    cx: Context,
    vars: Scope,
    obj: ExprView,
    arms: Seq<(crate::module::MatchPatternView, ExprView)>,
    after: ExprView,
)
    requires
        check_expr(cx, vars, ExprView::Match(Box::new(obj), arms)) is Ok,
    ensures
        match check_expr(
            cx,
            vars,
            ExprView::Sequence(Box::new(ExprView::Match(Box::new(obj), arms)), Box::new(after)),
        ) {
            Ok(whole) => whole.expr matches BinExprView::Sequence(_, second) && check_expr(
                cx,
                vars,
                after,
            ) == Ok::<TypedExprView, TypeErrorView>(*second),
            Err(e) => check_expr(cx, vars, after) == Err::<TypedExprView, TypeErrorView>(e),
        },
{
}

} // verus!
