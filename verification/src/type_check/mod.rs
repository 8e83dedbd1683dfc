//! Name resolution and type checking: from the parsed modules to the typed
//! program.
pub mod consistency;
pub mod desugar;
pub mod error;
pub mod expr;
pub mod link;
pub mod rules;

use crate::binary::{
    BinExpr, BinExprView, BinFunction, BinFunctionView, BinParamDef, BinParamDefView, Binary,
    BinaryView, TypedExpr, TypedExprView,
};
use crate::collect::{lemma_try_collect_error, lemma_try_concat_error, try_collect, try_concat};
use crate::lookup::{find_index, lookup};
use crate::module::{
    Const, ConstView, Function, FunctionView, IdLocView, Module, ModuleView, ParamDefView,
};
use crate::text::str_eq;
use crate::type_check::error::{result_view, TypeError, TypeErrorView};
use crate::type_check::expr::{context_of, expect_type, get_unique_type_id, type_check_expr};
use crate::type_check::link::{
    all_type_ids, function_id, link_all_functions, link_all_types, link_functions,
    link_type_names, link_types, make_function_id,
};
use crate::type_check::rules::{
    check_expr, Context, expect_type_rule, find_signature, resolve_type, Scope, Tables, TablesView,
    TypeIds,
};
use crate::types::{I32_TYPE, VOID_TYPE};
use vstd::prelude::*;

verus! {

/// The name of the entry function, and of the wrapper that calls it.
pub const MAIN: &'static str = "main";

/// A parameter with its type resolved.
pub open spec fn check_param(
    type_ids: TypeIds,
    imports: Seq<(Seq<char>, Seq<char>)>,
    module_id: Seq<char>,
    p: ParamDefView,
) -> Result<BinParamDefView, TypeErrorView> {
    match resolve_type(type_ids, imports, module_id, p.param_type) {
        Err(e) => Err(e),
        Ok(param_type) => Ok(BinParamDefView { name: p.name, param_type }),
    }
}

/// Step `i` of resolving the parameters `args`.
pub open spec fn param_checker(
    type_ids: TypeIds,
    imports: Seq<(Seq<char>, Seq<char>)>,
    module_id: Seq<char>,
    args: Seq<ParamDefView>,
) -> spec_fn(int) -> Result<BinParamDefView, TypeErrorView> {
    |i: int| check_param(type_ids, imports, module_id, args[i])
}

/// Whether one of the parameters is of type `void`.
pub open spec fn has_void_param(params: Seq<BinParamDefView>) -> bool {
    exists|i: int| 0 <= i < params.len() && (#[trigger] params[i]).param_type == VOID_TYPE@
}

/// The scope that the parameters make: each with its type, in order.
pub open spec fn param_scope(params: Seq<BinParamDefView>) -> Scope {
    Seq::new(params.len(), |i: int| (params[i].name, params[i].param_type))
}

/// The rule of a function: its parameter types are resolved and none may
/// be `void`; its body is checked in the scope of the parameters; where
/// the return type is not `void`, the type of the body must fit it. A
/// function that returns `void` may have a body of any type.
pub open spec fn check_function(cx: Context, f: FunctionView) -> Result<
    BinFunctionView,
    TypeErrorView,
> {
    match try_collect(
        f.args.len(),
        param_checker(cx.tables.type_ids, cx.imports, cx.module_id, f.args),
    ) {
        Err(e) => Err(e),
        Ok(params) => if has_void_param(params) {
            Err(TypeErrorView::VoidParameter)
        } else {
            match check_expr(cx, param_scope(params), f.body) {
                Err(e) => Err(e),
                Ok(body) => match resolve_type(
                    cx.tables.type_ids,
                    cx.imports,
                    cx.module_id,
                    f.ret_type,
                ) {
                    Err(e) => Err(e),
                    Ok(ret_type) => if ret_type == VOID_TYPE@ {
                        Ok(BinFunctionView { args: params, ret_type, body })
                    } else {
                        match expect_type_rule(ret_type, body) {
                            Err(e) => Err(e),
                            Ok(body) => Ok(BinFunctionView { args: params, ret_type, body }),
                        }
                    },
                },
            }
        },
    }
}

/// Checks one function of the module `module_id`.
pub fn type_check_function(
    tables: &Tables,
    module_id: &String,
    imports: &Vec<(String, String)>,
    function: &Function,
) -> (r: Result<BinFunction, TypeError>)
    ensures
        result_view(r) == check_function(
            context_of(tables, module_id, imports),
            function.deep_view(),
        ),
{
    let ghost cx = context_of(tables, module_id, imports);
    let ghost step = param_checker(
        cx.tables.type_ids,
        cx.imports,
        cx.module_id,
        function.args.deep_view(),
    );
    let mut args: Vec<BinParamDef> = Vec::new();
    let mut i: usize = 0;
    assert(args.deep_view() =~= Seq::<BinParamDefView>::empty());
    while i < function.args.len()
        invariant
            i <= function.args.len(),
            cx == context_of(tables, module_id, imports),
            step == param_checker(
                cx.tables.type_ids,
                cx.imports,
                cx.module_id,
                function.args.deep_view(),
            ),
            try_collect(i as nat, step) == Ok::<Seq<BinParamDefView>, TypeErrorView>(
                args.deep_view(),
            ),
        decreases function.args.len() - i,
    {
        assert(function.args.deep_view()[i as int] == function.args[i as int].deep_view());
        match get_unique_type_id(
            &tables.type_ids,
            imports,
            module_id,
            &function.args[i].param_type,
        ) {
            Err(e) => {
                proof {
                    lemma_try_collect_error(function.args.len() as nat, step, (i + 1) as nat);
                }
                return Err(e);
            },
            Ok(param_type) => {
                let ghost before = args.deep_view();
                let param = BinParamDef { name: function.args[i].name.clone(), param_type };
                args.push(param);
                assert(args.deep_view() =~= before.push(param.deep_view()));
            },
        }
        i += 1;
    }
    let ghost params = args.deep_view();
    let mut vars: Vec<(String, String)> = Vec::new();
    let mut k: usize = 0;
    while k < args.len()
        invariant
            k <= args.len(),
            params == args.deep_view(),
            cx == context_of(tables, module_id, imports),
            step == param_checker(
                cx.tables.type_ids,
                cx.imports,
                cx.module_id,
                function.args.deep_view(),
            ),
            try_collect(function.args.len() as nat, step) == Ok::<
                Seq<BinParamDefView>,
                TypeErrorView,
            >(params),
            vars.len() == k,
            forall|j: int| 0 <= j < k ==> (#[trigger] params[j]).param_type != VOID_TYPE@,
            forall|j: int|
                0 <= j < k ==> (#[trigger] vars.deep_view()[j]) == (
                    params[j].name,
                    params[j].param_type,
                ),
        decreases args.len() - k,
    {
        if str_eq(args[k].param_type.as_str(), VOID_TYPE) {
            assert(params[k as int].param_type == VOID_TYPE@);
            return Err(TypeError::VoidParameter);
        }
        let ghost before = vars.deep_view();
        vars.push((args[k].name.clone(), args[k].param_type.clone()));
        assert(vars.deep_view() =~= before.push((params[k as int].name, params[k as int].param_type)));
        k += 1;
    }
    assert(vars.deep_view() =~= param_scope(params));
    let typed_body = match type_check_expr(tables, module_id, imports, &mut vars, &function.body) {
        Err(e) => {
            return Err(e);
        },
        Ok(t) => t,
    };
    let ret_type = match get_unique_type_id(
        &tables.type_ids,
        imports,
        module_id,
        &function.ret_type,
    ) {
        Err(e) => {
            return Err(e);
        },
        Ok(t) => t,
    };
    let checked_body = if str_eq(ret_type.as_str(), VOID_TYPE) {
        typed_body
    } else {
        match expect_type(ret_type.as_str(), typed_body) {
            Err(e) => {
                return Err(e);
            },
            Ok(t) => t,
        }
    };
    Ok(BinFunction { args, ret_type, body: checked_body })
}

/// Step `i` of checking the overloads of the function `name`: the
/// checked overload under its global identifier.
pub open spec fn overload_checker(
    tables: TablesView,
    module_id: Seq<char>,
    imports: Seq<(Seq<char>, Seq<char>)>,
    name: Seq<char>,
    overloads: Seq<(Seq<IdLocView>, FunctionView)>,
) -> spec_fn(int) -> Result<(Seq<char>, BinFunctionView), TypeErrorView> {
    |i: int|
        match check_function(Context { tables, module_id, imports }, overloads[i].1) {
            Err(e) => Err(e),
            Ok(f) => Ok((function_id(module_id, name, i as nat), f)),
        }
}

/// Step `i` of checking the functions of one module.
pub open spec fn named_checker(
    tables: TablesView,
    module_id: Seq<char>,
    imports: Seq<(Seq<char>, Seq<char>)>,
    functions: Seq<(Seq<char>, Seq<(Seq<IdLocView>, FunctionView)>)>,
) -> spec_fn(int) -> Result<Seq<(Seq<char>, BinFunctionView)>, TypeErrorView> {
    |i: int|
        try_collect(
            functions[i].1.len(),
            overload_checker(tables, module_id, imports, functions[i].0, functions[i].1),
        )
}

/// The checked functions of one module, in declaration order.
pub open spec fn check_module(tables: TablesView, module_id: Seq<char>, m: ModuleView) -> Result<
    Seq<(Seq<char>, BinFunctionView)>,
    TypeErrorView,
> {
    try_concat(m.functions.len(), named_checker(tables, module_id, m.imports, m.functions))
}

/// Step `i` of checking the modules.
pub open spec fn module_checker(
    tables: TablesView,
    modules: Seq<(Seq<char>, ModuleView)>,
) -> spec_fn(int) -> Result<Seq<(Seq<char>, BinFunctionView)>, TypeErrorView> {
    |i: int| check_module(tables, modules[i].0, modules[i].1)
}

/// The checked functions of a program: those of each module in turn, or
/// the first error.
pub open spec fn check_modules(tables: TablesView, modules: Seq<(Seq<char>, ModuleView)>) -> Result<
    Seq<(Seq<char>, BinFunctionView)>,
    TypeErrorView,
> {
    try_concat(modules.len(), module_checker(tables, modules))
}

/// Checks the overloads of one function and appends them to `out`.
fn check_overloads(
    tables: &Tables,
    module_id: &String,
    imports: &Vec<(String, String)>,
    name: &String,
    overloads: &Vec<(Vec<crate::module::IdLoc>, Function)>,
    out: &mut Vec<(String, BinFunction)>,
) -> (r: Result<(), TypeError>)
    ensures
        match r {
            Ok(_) => try_collect(
                overloads.deep_view().len(),
                overload_checker(
                    tables.deep_view(),
                    module_id@,
                    imports.deep_view(),
                    name@,
                    overloads.deep_view(),
                ),
            ) matches Ok(checked) && final(out).deep_view() == old(out).deep_view() + checked,
            Err(e) => try_collect(
                overloads.deep_view().len(),
                overload_checker(
                    tables.deep_view(),
                    module_id@,
                    imports.deep_view(),
                    name@,
                    overloads.deep_view(),
                ),
            ) == Err::<Seq<(Seq<char>, BinFunctionView)>, TypeErrorView>(e.deep_view()),
        },
{
    let ghost step = overload_checker(
        tables.deep_view(),
        module_id@,
        imports.deep_view(),
        name@,
        overloads.deep_view(),
    );
    let ghost mut checked: Seq<(Seq<char>, BinFunctionView)> = seq![];
    let mut i: usize = 0;
    assert(out.deep_view() =~= old(out).deep_view() + checked);
    while i < overloads.len()
        invariant
            i <= overloads.len(),
            step == overload_checker(
                tables.deep_view(),
                module_id@,
                imports.deep_view(),
                name@,
                overloads.deep_view(),
            ),
            try_collect(i as nat, step) == Ok::<
                Seq<(Seq<char>, BinFunctionView)>,
                TypeErrorView,
            >(checked),
            out.deep_view() == old(out).deep_view() + checked,
        decreases overloads.len() - i,
    {
        assert(overloads.deep_view()[i as int] == (
            overloads[i as int].0.deep_view(),
            overloads[i as int].1.deep_view(),
        ));
        match type_check_function(tables, module_id, imports, &overloads[i].1) {
            Err(e) => {
                proof {
                    lemma_try_collect_error(overloads.len() as nat, step, (i + 1) as nat);
                }
                return Err(e);
            },
            Ok(f) => {
                let ghost before = out.deep_view();
                let entry = (make_function_id(module_id, name, i), f);
                out.push(entry);
                proof {
                    let added = (entry.0@, entry.1.deep_view());
                    assert(out.deep_view() =~= before.push(added));
                    assert(before.push(added) =~= old(out).deep_view() + checked.push(added));
                    checked = checked.push(added);
                }
            },
        }
        i += 1;
    }
    Ok(())
}

/// Checks the functions of one module and appends them to `out`.
fn check_functions_of_module(
    tables: &Tables,
    module_id: &String,
    module: &Module,
    out: &mut Vec<(String, BinFunction)>,
) -> (r: Result<(), TypeError>)
    ensures
        match r {
            Ok(_) => check_module(tables.deep_view(), module_id@, module.deep_view())
                matches Ok(checked) && final(out).deep_view() == old(out).deep_view() + checked,
            Err(e) => check_module(tables.deep_view(), module_id@, module.deep_view()) == Err::<
                Seq<(Seq<char>, BinFunctionView)>,
                TypeErrorView,
            >(e.deep_view()),
        },
{
    let ghost step = named_checker(
        tables.deep_view(),
        module_id@,
        module.imports.deep_view(),
        module.functions.deep_view(),
    );
    let ghost mut checked: Seq<(Seq<char>, BinFunctionView)> = seq![];
    let mut i: usize = 0;
    assert(out.deep_view() =~= old(out).deep_view() + checked);
    while i < module.functions.len()
        invariant
            i <= module.functions.len(),
            step == named_checker(
                tables.deep_view(),
                module_id@,
                module.imports.deep_view(),
                module.functions.deep_view(),
            ),
            try_concat(i as nat, step) == Ok::<
                Seq<(Seq<char>, BinFunctionView)>,
                TypeErrorView,
            >(checked),
            out.deep_view() == old(out).deep_view() + checked,
        decreases module.functions.len() - i,
    {
        let name = &module.functions[i].0;
        let overloads = &module.functions[i].1;
        assert(module.functions.deep_view()[i as int] == (name@, overloads.deep_view()));
        let ghost before = out.deep_view();
        match check_overloads(tables, module_id, &module.imports, name, overloads, out) {
            Err(e) => {
                proof {
                    lemma_try_concat_error(module.functions.len() as nat, step, (i + 1) as nat);
                }
                return Err(e);
            },
            Ok(_) => {
                proof {
                    let added = step(i as int)->Ok_0;
                    assert(out.deep_view() == before + added);
                    assert(before + added =~= old(out).deep_view() + (checked + added));
                    checked = checked + added;
                }
            },
        }
        i += 1;
    }
    Ok(())
}

/// Checks every function of every module.
pub fn check_all_functions(tables: &Tables, modules: &Vec<(String, Module)>) -> (r: Result<
    Vec<(String, BinFunction)>,
    TypeError,
>)
    ensures
        result_view(r) == check_modules(tables.deep_view(), modules.deep_view()),
{
    let ghost step = module_checker(tables.deep_view(), modules.deep_view());
    let mut all: Vec<(String, BinFunction)> = Vec::new();
    let mut i: usize = 0;
    assert(all.deep_view() =~= Seq::<(Seq<char>, BinFunctionView)>::empty());
    while i < modules.len()
        invariant
            i <= modules.len(),
            step == module_checker(tables.deep_view(), modules.deep_view()),
            try_concat(i as nat, step) == Ok::<
                Seq<(Seq<char>, BinFunctionView)>,
                TypeErrorView,
            >(all.deep_view()),
        decreases modules.len() - i,
    {
        assert(modules.deep_view()[i as int] == (
            modules[i as int].0@,
            modules[i as int].1.deep_view(),
        ));
        match check_functions_of_module(tables, &modules[i].0, &modules[i].1, &mut all) {
            Err(e) => {
                proof {
                    lemma_try_concat_error(modules.len() as nat, step, (i + 1) as nat);
                }
                return Err(e);
            },
            Ok(_) => {},
        }
        i += 1;
    }
    Ok(all)
}

/// The function that the target calls first: it calls the entry function
/// of the program and returns zero.
pub open spec fn entry_wrapper(main_function: Seq<char>) -> BinFunctionView {
    BinFunctionView {
        args: seq![],
        ret_type: I32_TYPE@,
        body: TypedExprView {
            expr: BinExprView::Sequence(
                Box::new(
                    TypedExprView {
                        expr: BinExprView::FuncCall(main_function, seq![]),
                        expr_type: VOID_TYPE@,
                    },
                ),
                Box::new(
                    TypedExprView {
                        expr: BinExprView::Const(ConstView::I32(0)),
                        expr_type: I32_TYPE@,
                    },
                ),
            ),
            expr_type: I32_TYPE@,
        },
    }
}

/// The rule of the entry function: it must be among the checked functions
/// and return `void`. The wrapper is then put in front of the functions,
/// under the name `main`.
pub open spec fn check_main(
    functions: Seq<(Seq<char>, BinFunctionView)>,
    main_function: Seq<char>,
) -> Result<Seq<(Seq<char>, BinFunctionView)>, TypeErrorView> {
    match lookup(functions, main_function) {
        None => Err(TypeErrorView::MainMissing),
        Some(f) => if f.ret_type != VOID_TYPE@ {
            Err(TypeErrorView::MainNotVoid)
        } else {
            Ok(seq![(MAIN@, entry_wrapper(main_function))] + functions)
        },
    }
}

/// Checks that the entry function `main_function` returns `void`, and
/// adds the wrapper that calls it.
pub fn type_check_main(functions: Vec<(String, BinFunction)>, main_function: &String) -> (r: Result<
    Vec<(String, BinFunction)>,
    TypeError,
>)
    ensures
        result_view(r) == check_main(functions.deep_view(), main_function@),
{
    let index = match find_index(&functions, main_function) {
        None => {
            return Err(TypeError::MainMissing);
        },
        Some(i) => i,
    };
    assert(functions.deep_view()[index as int].1 == functions[index as int].1.deep_view());
    if !str_eq(functions[index].1.ret_type.as_str(), VOID_TYPE) {
        return Err(TypeError::MainNotVoid);
    }
    let call = TypedExpr {
        expr: BinExpr::FuncCall(main_function.clone(), Vec::new()),
        expr_type: VOID_TYPE.to_owned(),
    };
    let zero = TypedExpr { expr: BinExpr::Const(Const::I32(0)), expr_type: I32_TYPE.to_owned() };
    proof {
        assert(call.expr.deep_view()->FuncCall_1 =~= Seq::<TypedExprView>::empty());
        assert(call.deep_view() == TypedExprView {
            expr: BinExprView::FuncCall(main_function@, seq![]),
            expr_type: VOID_TYPE@,
        });
        assert(zero.deep_view() == TypedExprView {
            expr: BinExprView::Const(ConstView::I32(0)),
            expr_type: I32_TYPE@,
        });
    }
    let main_calling_func = BinFunction {
        args: Vec::new(),
        ret_type: I32_TYPE.to_owned(),
        body: TypedExpr {
            expr: BinExpr::Sequence(Box::new(call), Box::new(zero)),
            expr_type: I32_TYPE.to_owned(),
        },
    };
    proof {
        assert(main_calling_func.args.deep_view() =~= Seq::<BinParamDefView>::empty());
        assert(main_calling_func.deep_view() == entry_wrapper(main_function@));
    }
    let ghost before = functions.deep_view();
    let mut functions = functions;
    functions.insert(0, (MAIN.to_owned(), main_calling_func));
    assert(functions.deep_view() =~= seq![(MAIN@, entry_wrapper(main_function@))] + before);
    Ok(functions)
}

/// The typed program of a set of modules with the entry module
/// `main_module_id`.
///
/// The types of all modules are linked first, then the table of functions
/// is built, then every function is checked; the first error of these
/// steps is the result. Then the entry function is looked for: `main`
/// without parameters in the entry module. It must return `void`.
pub open spec fn check_program(
    modules: Seq<(Seq<char>, ModuleView)>,
    main_module_id: Seq<char>,
) -> Result<BinaryView, TypeErrorView> {
    let type_ids = all_type_ids(modules);
    match link_types(type_ids, modules) {
        Err(e) => Err(e),
        Ok(type_defs) => match link_functions(type_ids, modules) {
            Err(e) => Err(e),
            Ok(function_ids) => match check_modules(
                TablesView { type_ids, function_ids, type_defs },
                modules,
            ) {
                Err(e) => Err(e),
                Ok(checked) => match lookup(function_ids, main_module_id) {
                    None => Err(TypeErrorView::MainModuleNotFound),
                    Some(functions) => match lookup(functions, MAIN@) {
                        None => Err(TypeErrorView::MainNotFound),
                        Some(sigs) => match find_signature(sigs, seq![]) {
                            None => Err(TypeErrorView::MainSignatureNotFound),
                            Some(sig) => match check_main(checked, sig.id) {
                                Err(e) => Err(e),
                                Ok(functions) => Ok(BinaryView { functions, types: type_defs }),
                            },
                        },
                    },
                },
            },
        },
    }
}

/// Links and checks a program. `modules` holds every module under its
/// identity; `main_module_id` is the identity of the entry module.
/// Returns the typed program, or the first error.
pub fn type_check(modules: &Vec<(String, Module)>, main_module_id: &String) -> (r: Result<
    Binary,
    TypeError,
>)
    ensures
        result_view(r) == check_program(modules.deep_view(), main_module_id@),
{
    let type_ids = link_type_names(modules);
    let type_defs = match link_all_types(&type_ids, modules) {
        Err(e) => {
            return Err(e);
        },
        Ok(t) => t,
    };
    let function_ids = match link_all_functions(&type_ids, modules) {
        Err(e) => {
            return Err(e);
        },
        Ok(t) => t,
    };
    let tables = Tables { type_ids, function_ids, type_defs };
    let checked_functions = match check_all_functions(&tables, modules) {
        Err(e) => {
            return Err(e);
        },
        Ok(t) => t,
    };
    let module_index = match find_index(&tables.function_ids, main_module_id) {
        None => {
            return Err(TypeError::MainModuleNotFound);
        },
        Some(i) => i,
    };
    let main_module = &tables.function_ids[module_index].1;
    assert(tables.function_ids.deep_view()[module_index as int].1 == main_module.deep_view());
    let name_index = match find_index(main_module, &MAIN.to_owned()) {
        None => {
            return Err(TypeError::MainNotFound);
        },
        Some(i) => i,
    };
    let main_overloads = &main_module[name_index].1;
    assert(main_module.deep_view()[name_index as int].1 == main_overloads.deep_view());
    let no_args: Vec<String> = Vec::new();
    assert(no_args.deep_view() =~= Seq::<Seq<char>>::empty());
    let main_function = match crate::type_check::expr::find_signature_index(
        main_overloads,
        &no_args,
    ) {
        None => {
            return Err(TypeError::MainSignatureNotFound);
        },
        Some(i) => main_overloads[i].id.clone(),
    };
    let functions = match type_check_main(checked_functions, &main_function) {
        Err(e) => {
            return Err(e);
        },
        Ok(f) => f,
    };
    Ok(Binary { functions, types: tables.type_defs })
}

} // verus!
