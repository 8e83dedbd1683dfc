//! The translation unit: the entry function, every function that it
//! reaches, and the runtime symbols that they call.
use crate::binary::{Binary, BinaryView, BinFunction, BinFunctionView, BinParamDef};
use crate::codegen::build_in::{linked_func_signature, linked_signature_of, BuildIn};
use crate::codegen::function::{
    built_function, declaration, init_build_function, init_function, param_types,
};
use crate::codegen::garbage_collection::GC;
use crate::codegen::ir::{
    CodegenError, CodegenErrorView, Instr, InstrView, IrFunction, IrFunctionView, IrModule,
    IrModuleView, outcome,
};
use crate::codegen::{CodegenContext, CodegenContextView};
use crate::lookup::{
    find_index, find_name, lemma_lookup_index, lookup, lookup_index, name_position, name_table,
};
use crate::text::str_eq;
use crate::type_check::MAIN;
use crate::types::{create_structs, struct_table};
use vstd::prelude::*;

verus! {

/// The name of the translation unit.
pub const MODULE_NAME: &'static str = "ArenaBinary";

/// Whether a function of the name `name` is among `functions`.
pub open spec fn has_function(functions: Seq<IrFunctionView>, name: Seq<char>) -> bool {
    exists|i: int| 0 <= i < functions.len() && (#[trigger] functions[i]).name == name
}

/// Whether a function of the name `name` is among `functions`.
pub fn is_declared(functions: &Vec<IrFunction>, name: &str) -> (r: bool)
    ensures
        r == has_function(functions.deep_view(), name@),
{
    let mut i: usize = 0;
    while i < functions.len()
        invariant
            i <= functions.len(),
            forall|j: int| 0 <= j < i ==> (#[trigger] functions.deep_view()[j]).name != name@,
        decreases functions.len() - i,
    {
        if str_eq(functions[i].name.as_str(), name) {
            assert(functions.deep_view()[i as int].name == name@);
            return true;
        }
        assert(functions.deep_view()[i as int].name != name@);
        i += 1;
    }
    false
}

/// The functions that the first `n` instructions call, in order.
pub open spec fn callees(instrs: Seq<(usize, InstrView)>, n: nat) -> Seq<Seq<char>>
    decreases n,
{
    if n == 0 || n > instrs.len() {
        seq![]
    } else {
        match instrs[n - 1].1 {
            InstrView::Call { callee, .. } => callees(instrs, (n - 1) as nat).push(callee),
            _ => callees(instrs, (n - 1) as nat),
        }
    }
}

/// The functions that a function calls, in order; none where it has no
/// body.
pub open spec fn called_by(f: IrFunctionView) -> Seq<Seq<char>> {
    match f.body {
        Some(body) => callees(body.instrs, body.instrs.len()),
        None => seq![],
    }
}

/// Lists the functions that a function calls.
pub fn collect_callees(f: &IrFunction) -> (r: Vec<String>)
    ensures
        r.deep_view() == called_by(f.deep_view()),
{
    let mut names: Vec<String> = Vec::new();
    assert(names.deep_view() =~= Seq::<Seq<char>>::empty());
    match &f.body {
        None => {},
        Some(body) => {
            let ghost instrs = body.deep_view().instrs;
            let mut i: usize = 0;
            while i < body.instrs.len()
                invariant
                    i <= body.instrs.len(),
                    instrs == body.instrs.deep_view(),
                    names.deep_view() == callees(instrs, i as nat),
                decreases body.instrs.len() - i,
            {
                assert(instrs[i as int].1 == body.instrs[i as int].1.deep_view());
                match &body.instrs[i].1 {
                    Instr::Call { callee, args, name } => {
                        let ghost before = names.deep_view();
                        names.push(callee.clone());
                        assert(names.deep_view() =~= before.push(callee@));
                    },
                    _ => {},
                }
                i += 1;
            }
        },
    }
    names
}

/// What a call of `callee` adds to the unit: nothing where the function
/// is in the unit already or is no function of the program that is yet
/// to be built; else the function, built, which is then no longer to be
/// built.
pub open spec fn discover<Gc: GC>(
    cx: CodegenContextView,
    functions: Seq<IrFunctionView>,
    remaining: Seq<Seq<char>>,
    callee: Seq<char>,
) -> Result<(Seq<IrFunctionView>, Seq<Seq<char>>), CodegenErrorView> {
    if has_function(functions, callee) {
        Ok((functions, remaining))
    } else {
        match name_position(remaining, callee) {
            None => Ok((functions, remaining)),
            Some(i) => match lookup(cx.binary.functions, callee) {
                None => Ok((functions, remaining.remove(i))),
                Some(f) => match built_function::<Gc>(cx, callee, f, false) {
                    Err(e) => Err(e),
                    Ok(built) => Ok((functions.push(built), remaining.remove(i))),
                },
            },
        }
    }
}

/// What the first `n` of the calls `names` add to the unit, in order.
pub open spec fn discover_all<Gc: GC>(
    cx: CodegenContextView,
    functions: Seq<IrFunctionView>,
    remaining: Seq<Seq<char>>,
    names: Seq<Seq<char>>,
    n: nat,
) -> Result<(Seq<IrFunctionView>, Seq<Seq<char>>), CodegenErrorView>
    decreases n,
{
    if n == 0 || n > names.len() {
        Ok((functions, remaining))
    } else {
        match discover_all::<Gc>(cx, functions, remaining, names, (n - 1) as nat) {
            Err(e) => Err(e),
            Ok((found, left)) => discover::<Gc>(cx, found, left, names[n - 1]),
        }
    }
}

/// Calls add functions to the unit only as they take them from those
/// that are yet to be built.
pub proof fn lemma_discover_all_bounds<Gc: GC>(
    cx: CodegenContextView,
    functions: Seq<IrFunctionView>,
    remaining: Seq<Seq<char>>,
    names: Seq<Seq<char>>,
    n: nat,
)
    ensures
        discover_all::<Gc>(cx, functions, remaining, names, n) matches Ok((found, left))
            ==> functions.len() <= found.len() && found.len() + left.len() <= functions.len()
            + remaining.len(),
    decreases n,
{
    if !(n == 0 || n > names.len()) {
        lemma_discover_all_bounds::<Gc>(cx, functions, remaining, names, (n - 1) as nat);
        match discover_all::<Gc>(cx, functions, remaining, names, (n - 1) as nat) {
            Err(e) => {},
            Ok((found, left)) => {
                if !has_function(found, names[n - 1]) {
                    lemma_lookup_index(name_table(left), names[n - 1]);
                }
            },
        }
    }
}

/// Where the first `k` calls fail, all of them fail in the same way.
pub proof fn lemma_discover_all_error<Gc: GC>(
    cx: CodegenContextView,
    functions: Seq<IrFunctionView>,
    remaining: Seq<Seq<char>>,
    names: Seq<Seq<char>>,
    k: nat,
)
    requires
        k <= names.len(),
        discover_all::<Gc>(cx, functions, remaining, names, k) is Err,
    ensures
        discover_all::<Gc>(cx, functions, remaining, names, names.len()) == discover_all::<Gc>(
            cx,
            functions,
            remaining,
            names,
            k,
        ),
    decreases names.len() - k,
{
    if k < names.len() {
        lemma_discover_all_error::<Gc>(cx, functions, remaining, names, k + 1);
    }
}

/// The functions of the unit once every function from number `f` on has
/// been searched for calls: each function is built when the first call
/// of it is found, and searched in its turn.
pub open spec fn closure<Gc: GC>(
    cx: CodegenContextView,
    functions: Seq<IrFunctionView>,
    remaining: Seq<Seq<char>>,
    f: nat,
) -> Result<Seq<IrFunctionView>, CodegenErrorView>
    decreases functions.len() + remaining.len() - f,
{
    if f >= functions.len() {
        Ok(functions)
    } else {
        let names = called_by(functions[f as int]);
        proof {
            lemma_discover_all_bounds::<Gc>(cx, functions, remaining, names, names.len());
        }
        match discover_all::<Gc>(cx, functions, remaining, names, names.len()) {
            Err(e) => Err(e),
            Ok((found, left)) => closure::<Gc>(cx, found, left, f + 1),
        }
    }
}

/// What a call of `callee` adds to the declarations `decls`: the
/// declaration of the runtime symbol of that name, unless the unit has a
/// function of that name already.
pub open spec fn declare(
    cx: CodegenContextView,
    functions: Seq<IrFunctionView>,
    decls: Seq<IrFunctionView>,
    callee: Seq<char>,
) -> Result<Seq<IrFunctionView>, CodegenErrorView> {
    if has_function(functions, callee) || has_function(decls, callee) {
        Ok(decls)
    } else {
        match BuildIn::named(callee) {
            None => Ok(decls),
            Some(b) => if b.linked() {
                match declaration(
                    cx,
                    callee,
                    linked_func_signature(b).0,
                    linked_func_signature(b).1,
                    linked_func_signature(b).2,
                    true,
                    false,
                ) {
                    Err(e) => Err(e),
                    Ok(d) => Ok(decls.push(d)),
                }
            } else {
                Ok(decls)
            },
        }
    }
}

/// What the first `n` of the calls `names` add to the declarations.
pub open spec fn declare_all(
    cx: CodegenContextView,
    functions: Seq<IrFunctionView>,
    decls: Seq<IrFunctionView>,
    names: Seq<Seq<char>>,
    n: nat,
) -> Result<Seq<IrFunctionView>, CodegenErrorView>
    decreases n,
{
    if n == 0 || n > names.len() {
        Ok(decls)
    } else {
        match declare_all(cx, functions, decls, names, (n - 1) as nat) {
            Err(e) => Err(e),
            Ok(before) => declare(cx, functions, before, names[n - 1]),
        }
    }
}

/// Where the first `k` calls fail, all of them fail in the same way.
pub proof fn lemma_declare_all_error(
    cx: CodegenContextView,
    functions: Seq<IrFunctionView>,
    decls: Seq<IrFunctionView>,
    names: Seq<Seq<char>>,
    k: nat,
)
    requires
        k <= names.len(),
        declare_all(cx, functions, decls, names, k) is Err,
    ensures
        declare_all(cx, functions, decls, names, names.len()) == declare_all(
            cx,
            functions,
            decls,
            names,
            k,
        ),
    decreases names.len() - k,
{
    if k < names.len() {
        lemma_declare_all_error(cx, functions, decls, names, k + 1);
    }
}

/// The declarations of the runtime symbols that the first `n` functions
/// call, each once, in the order of the first call.
pub open spec fn declarations(cx: CodegenContextView, functions: Seq<IrFunctionView>, n: nat) -> Result<
    Seq<IrFunctionView>,
    CodegenErrorView,
>
    decreases n,
{
    if n == 0 || n > functions.len() {
        Ok(seq![])
    } else {
        match declarations(cx, functions, (n - 1) as nat) {
            Err(e) => Err(e),
            Ok(before) => {
                let names = called_by(functions[n - 1]);
                declare_all(cx, functions, before, names, names.len())
            },
        }
    }
}

/// Where the first `k` functions fail, all of them fail in the same way.
pub proof fn lemma_declarations_error(
    cx: CodegenContextView,
    functions: Seq<IrFunctionView>,
    k: nat,
)
    requires
        k <= functions.len(),
        declarations(cx, functions, k) is Err,
    ensures
        declarations(cx, functions, functions.len()) == declarations(cx, functions, k),
    decreases functions.len() - k,
{
    if k < functions.len() {
        lemma_declarations_error(cx, functions, k + 1);
    }
}

/// The names of the functions of the program, in order.
pub open spec fn function_names(functions: Seq<(Seq<char>, BinFunctionView)>) -> Seq<Seq<char>> {
    Seq::new(functions.len(), |i: int| functions[i].0)
}

/// The functions of the unit: the entry wrapper `main`, then every
/// function of the program that it reaches, each built at the first call
/// of it, then the declarations of the runtime symbols that they call.
pub open spec fn unit_functions<Gc: GC>(cx: CodegenContextView) -> Result<
    Seq<IrFunctionView>,
    CodegenErrorView,
> {
    match lookup_index(cx.binary.functions, MAIN@) {
        None => Err(CodegenErrorView::MainNotFound),
        Some(i) => match built_function::<Gc>(cx, MAIN@, cx.binary.functions[i].1, true) {
            Err(e) => Err(e),
            Ok(main) => match closure::<Gc>(
                cx,
                seq![main],
                function_names(cx.binary.functions).remove(i),
                0,
            ) {
                Err(e) => Err(e),
                Ok(functions) => match declarations(cx, functions, functions.len()) {
                    Err(e) => Err(e),
                    Ok(decls) => Ok(functions + decls),
                },
            },
        },
    }
}

/// The translation unit of a program under the strategy `Gc`: the
/// layouts of its types and the functions of the unit.
pub open spec fn unit<Gc: GC>(binary: BinaryView) -> Result<IrModuleView, CodegenErrorView> {
    match struct_table(binary.types, Gc::header()) {
        Err(e) => Err(e),
        Ok(structs) => match unit_functions::<Gc>(CodegenContextView { binary, structs }) {
            Err(e) => Err(e),
            Ok(functions) => Ok(IrModuleView { name: MODULE_NAME@, structs, functions }),
        },
    }
}

/// The types of the parameters, in order.
fn param_type_names(args: &Vec<BinParamDef>) -> (r: Vec<String>)
    ensures
        r.deep_view() == param_types(args.deep_view()),
{
    let mut types: Vec<String> = Vec::new();
    let mut i: usize = 0;
    while i < args.len()
        invariant
            i <= args.len(),
            types.len() == i,
            forall|j: int| 0 <= j < i ==> (#[trigger] types[j])@ == args[j].param_type@,
        decreases args.len() - i,
    {
        types.push(args[i].param_type.clone());
        i += 1;
    }
    assert(types.deep_view() =~= param_types(args.deep_view()));
    types
}

/// Builds the function `name` of the program with its body.
fn build_named<Gc: GC>(cc: &CodegenContext, name: &str, f: &BinFunction, is_main: bool) -> (r:
    Result<IrFunction, CodegenError>)
    ensures
        outcome(r) == built_function::<Gc>(cc.deep_view(), name@, f.deep_view(), is_main),
{
    let args = param_type_names(&f.args);
    init_build_function::<Gc>(cc, name, &args, f.ret_type.as_str(), false, f, is_main)
}

/// Builds every function of the program that the functions of the unit
/// call and that is not built yet, and those that these call in their
/// turn.
fn build_reachable<Gc: GC>(
    cc: &CodegenContext,
    unit: &mut Vec<IrFunction>,
    pending: &mut Vec<String>,
) -> (r: Result<(), CodegenError>)
    ensures
        match closure::<Gc>(cc.deep_view(), old(unit).deep_view(), old(pending).deep_view(), 0) {
            Ok(functions) => r is Ok && final(unit).deep_view() == functions,
            Err(e) => r matches Err(x) && x.deep_view() == e,
        },
{
    let ghost cx = cc.deep_view();
    let ghost goal = closure::<Gc>(cx, unit.deep_view(), pending.deep_view(), 0);
    let mut f: usize = 0;
    while f < unit.len()
        invariant
            cx == cc.deep_view(),
            f <= unit.len(),
            goal == closure::<Gc>(cx, old(unit).deep_view(), old(pending).deep_view(), 0),
            goal == closure::<Gc>(cx, unit.deep_view(), pending.deep_view(), f as nat),
        decreases unit.len() + pending.len() - f,
    {
        let names = collect_callees(&unit[f]);
        let ghost called = names.deep_view();
        let ghost start_functions = unit.deep_view();
        let ghost start_remaining = pending.deep_view();
        assert(start_functions[f as int] == unit[f as int].deep_view());
        let mut n: usize = 0;
        while n < names.len()
            invariant
                n <= names.len(),
                cx == cc.deep_view(),
                called == names.deep_view(),
                f < start_functions.len(),
                discover_all::<Gc>(cx, start_functions, start_remaining, called, n as nat) == Ok::<
                    (Seq<IrFunctionView>, Seq<Seq<char>>),
                    CodegenErrorView,
                >((unit.deep_view(), pending.deep_view())),
                called == called_by(start_functions[f as int]),
                goal == closure::<Gc>(cx, old(unit).deep_view(), old(pending).deep_view(), 0),
                goal == closure::<Gc>(cx, start_functions, start_remaining, f as nat),
            decreases names.len() - n,
        {
            let callee = &names[n];
            assert(called[n as int] == callee@);
            if !is_declared(&unit, callee.as_str()) {
                match find_name(&pending, callee.as_str()) {
                    None => {},
                    Some(i) => {
                        let ghost before = pending.deep_view();
                        pending.remove(i);
                        assert(pending.deep_view() =~= before.remove(i as int));
                        match find_index(&cc.binary.functions, callee) {
                            None => {},
                            Some(d) => {
                                let def = &cc.binary.functions[d].1;
                                assert(cx.binary.functions[d as int].1 == def.deep_view());
                                match build_named::<Gc>(cc, callee.as_str(), def, false) {
                                    Err(e) => {
                                        proof {
                                            assert(discover::<Gc>(
                                                cx,
                                                unit.deep_view(),
                                                before,
                                                callee@,
                                            ) is Err);
                                            lemma_discover_all_error::<Gc>(
                                                cx,
                                                start_functions,
                                                start_remaining,
                                                called,
                                                (n + 1) as nat,
                                            );
                                        }
                                        return Err(e);
                                    },
                                    Ok(built) => {
                                        let ghost so_far = unit.deep_view();
                                        unit.push(built);
                                        assert(unit.deep_view() =~= so_far.push(
                                            built.deep_view(),
                                        ));
                                    },
                                }
                            },
                        }
                    },
                }
            }
            n += 1;
        }
        proof {
            lemma_discover_all_bounds::<Gc>(
                cx,
                start_functions,
                start_remaining,
                called,
                called.len(),
            );
        }
        f += 1;
    }
    Ok(())
}

/// Declares the runtime symbols that the functions call.
fn declare_linked(cc: &CodegenContext, functions: &Vec<IrFunction>) -> (r: Result<
    Vec<IrFunction>,
    CodegenError,
>)
    ensures
        outcome(r) == declarations(
            cc.deep_view(),
            functions.deep_view(),
            functions.deep_view().len(),
        ),
{
    let ghost cx = cc.deep_view();
    let ghost all = functions.deep_view();
    let mut decls: Vec<IrFunction> = Vec::new();
    assert(decls.deep_view() =~= Seq::<IrFunctionView>::empty());
    let mut f: usize = 0;
    while f < functions.len()
        invariant
            f <= functions.len(),
            cx == cc.deep_view(),
            all == functions.deep_view(),
            declarations(cx, all, f as nat) == Ok::<Seq<IrFunctionView>, CodegenErrorView>(
                decls.deep_view(),
            ),
        decreases functions.len() - f,
    {
        let names = collect_callees(&functions[f]);
        let ghost called = names.deep_view();
        let ghost before = decls.deep_view();
        assert(all[f as int] == functions[f as int].deep_view());
        let mut n: usize = 0;
        while n < names.len()
            invariant
                n <= names.len(),
                f < functions.len(),
                cx == cc.deep_view(),
                all == functions.deep_view(),
                called == names.deep_view(),
                called == called_by(all[f as int]),
                declarations(cx, all, f as nat) == Ok::<Seq<IrFunctionView>, CodegenErrorView>(
                    before,
                ),
                declare_all(cx, all, before, called, n as nat) == Ok::<
                    Seq<IrFunctionView>,
                    CodegenErrorView,
                >(decls.deep_view()),
            decreases names.len() - n,
        {
            let callee = &names[n];
            assert(called[n as int] == callee@);
            if !is_declared(functions, callee.as_str()) && !is_declared(&decls, callee.as_str()) {
                match BuildIn::from_str(callee.as_str()) {
                    None => {},
                    Some(b) => {
                        if b.is_linked() {
                            let (arg_names, ret_type, is_var_arg) = linked_signature_of(b);
                            let mut arg_types: Vec<String> = Vec::new();
                            let mut a: usize = 0;
                            while a < arg_names.len()
                                invariant
                                    a <= arg_names.len(),
                                    arg_types.len() == a,
                                    forall|j: int|
                                        0 <= j < a ==> (#[trigger] arg_types[j])@
                                            == arg_names[j]@,
                                decreases arg_names.len() - a,
                            {
                                arg_types.push(arg_names[a].to_owned());
                                a += 1;
                            }
                            assert(arg_types.deep_view() =~= arg_names.deep_view());
                            match init_function(
                                cc,
                                callee.as_str(),
                                &arg_types,
                                ret_type,
                                is_var_arg,
                                true,
                                false,
                            ) {
                                Err(e) => {
                                    proof {
                                        lemma_declare_all_error(
                                            cx,
                                            all,
                                            before,
                                            called,
                                            (n + 1) as nat,
                                        );
                                        lemma_declarations_error(cx, all, (f + 1) as nat);
                                    }
                                    return Err(e);
                                },
                                Ok(d) => {
                                    let ghost so_far = decls.deep_view();
                                    decls.push(d);
                                    assert(decls.deep_view() =~= so_far.push(d.deep_view()));
                                },
                            }
                        }
                    },
                }
            }
            n += 1;
        }
        f += 1;
    }
    Ok(decls)
}

/// Builds the translation unit of a program for the strategy `Gc`.
pub fn build_module<Gc: GC>(binary: Binary) -> (r: Result<IrModule, CodegenError>)
    ensures
        outcome(r) == unit::<Gc>(binary.deep_view()),
{
    let llvm_structs = match create_structs::<Gc>(&binary) {
        Err(e) => {
            return Err(e);
        },
        Ok(s) => s,
    };
    let cc = CodegenContext { binary, llvm_structs };
    let ghost cx = cc.deep_view();
    let main_index = match find_index(&cc.binary.functions, &MAIN.to_owned()) {
        None => {
            return Err(CodegenError::MainNotFound);
        },
        Some(i) => i,
    };
    let main_func = &cc.binary.functions[main_index].1;
    assert(cx.binary.functions[main_index as int].1 == main_func.deep_view());
    let main = match build_named::<Gc>(&cc, MAIN, main_func, true) {
        Err(e) => {
            return Err(e);
        },
        Ok(f) => f,
    };
    let mut remaining: Vec<String> = Vec::new();
    let mut i: usize = 0;
    while i < cc.binary.functions.len()
        invariant
            i <= cc.binary.functions.len(),
            remaining.len() == i,
            forall|j: int| 0 <= j < i ==> (#[trigger] remaining[j])@ == cc.binary.functions[j].0@,
        decreases cc.binary.functions.len() - i,
    {
        remaining.push(cc.binary.functions[i].0.clone());
        i += 1;
    }
    assert(remaining.deep_view() =~= function_names(cx.binary.functions));
    let ghost names = remaining.deep_view();
    remaining.remove(main_index);
    assert(remaining.deep_view() =~= names.remove(main_index as int));
    let mut functions: Vec<IrFunction> = Vec::new();
    functions.push(main);
    assert(functions.deep_view() =~= seq![main.deep_view()]);
    match build_reachable::<Gc>(&cc, &mut functions, &mut remaining) {
        Err(e) => {
            return Err(e);
        },
        Ok(_) => {},
    }
    let mut decls = match declare_linked(&cc, &functions) {
        Err(e) => {
            return Err(e);
        },
        Ok(d) => d,
    };
    let ghost built = functions.deep_view();
    let ghost declared = decls.deep_view();
    functions.append(&mut decls);
    assert(functions.deep_view() =~= built + declared);
    let CodegenContext { binary, llvm_structs } = cc;
    Ok(IrModule { name: MODULE_NAME.to_owned(), structs: llvm_structs, functions })
}

} // verus!
