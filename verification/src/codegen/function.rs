//! Calls and functions: how a call finds its target, and how the body
//! of a function is built around the code of its expression.
use crate::codegen::build_in::{
    build_in_code, get_build_in_func_call, linked_func_signature, linked_signature_of, BuildIn,
};
use crate::codegen::ir::{
    emitted, outcome, Builder, BuilderView, CodegenError, CodegenErrorView, Instr, InstrView, IrType,
    IrTypeView, Value,
};
use crate::binary::{BinFunction, BinFunctionView, BinParamDefView};
use crate::codegen::expression::{build_expression, lower, make_slot, slot_code, Slots};
use crate::codegen::garbage_collection::GC;
use crate::codegen::ir::{IrFunction, IrFunctionView};
use crate::codegen::{CodegenContext, CodegenContextView};
use crate::lookup::{find_index, lookup};
use crate::types::{
    field_types, is_user_type, is_user_type_name, pointer_to, types_of_fields, VOID_TYPE,
};
use crate::text::str_eq;
use crate::type_check::MAIN;
use crate::types::{ir_type, type_to_llvm_type};
use vstd::prelude::*;

verus! {

/// How the function `func_id` is called, where it is called as a
/// function: the number of parameters it is declared with, and whether it
/// returns nothing. `None` says that `func_id` is a built-in whose code is
/// put in place of the call.
///
/// A function of the program is declared with one parameter more than it
/// has, for the allocation frame; the entry wrapper `main` is not. A
/// symbol of the runtime library is declared as its signature says. A
/// function of the program hides a built-in of the same name.
pub open spec fn call_target(cx: CodegenContextView, func_id: Seq<char>) -> Result<
    Option<(nat, bool)>,
    CodegenErrorView,
> {
    match lookup(cx.binary.functions, func_id) {
        Some(f) => match ir_type(cx.structs, f.ret_type) {
            Err(e) => Err(e),
            Ok(t) => Ok(
                Some(
                    (
                        if func_id == MAIN@ {
                            f.args.len()
                        } else {
                            f.args.len() + 1
                        },
                        t is Void,
                    ),
                ),
            ),
        },
        None => match BuildIn::named(func_id) {
            None => Err(CodegenErrorView::UnknownFunction(func_id)),
            Some(b) => if b.linked() {
                match ir_type(cx.structs, linked_func_signature(b).1) {
                    Err(e) => Err(e),
                    Ok(t) => Ok(Some((linked_func_signature(b).0.len(), t is Void))),
                }
            } else {
                Ok(None)
            },
        },
    }
}

/// Finds how `func_id` is called.
pub fn find_call_target(cc: &CodegenContext, func_id: &String) -> (r: Result<
    Option<(u128, bool)>,
    CodegenError,
>)
    ensures
        match r {
            Ok(Some((declared, returns_void))) => call_target(cc.deep_view(), func_id@) == Ok::<
                Option<(nat, bool)>,
                CodegenErrorView,
            >(Some((declared as nat, returns_void))),
            Ok(None) => call_target(cc.deep_view(), func_id@) == Ok::<
                Option<(nat, bool)>,
                CodegenErrorView,
            >(None),
            Err(e) => call_target(cc.deep_view(), func_id@) == Err::<
                Option<(nat, bool)>,
                CodegenErrorView,
            >(e.deep_view()),
        },
{
    match find_index(&cc.binary.functions, func_id) {
        Some(i) => {
            let f = &cc.binary.functions[i].1;
            assert(cc.binary.functions.deep_view()[i as int].1 == f.deep_view());
            let ret_type = match type_to_llvm_type(&cc.llvm_structs, f.ret_type.as_str()) {
                Err(e) => {
                    return Err(e);
                },
                Ok(t) => t,
            };
            let returns_void = match ret_type {
                IrType::Void => true,
                _ => false,
            };
            let declared: u128 = if str_eq(func_id.as_str(), MAIN) {
                f.args.len() as u128
            } else {
                f.args.len() as u128 + 1
            };
            Ok(Some((declared, returns_void)))
        },
        None => match BuildIn::from_str(func_id.as_str()) {
            None => Err(CodegenError::UnknownFunction(func_id.clone())),
            Some(b) => {
                if b.is_linked() {
                    let (args, ret, _) = linked_signature_of(b);
                    let ret_type = match type_to_llvm_type(&cc.llvm_structs, ret) {
                        Err(e) => {
                            return Err(e);
                        },
                        Ok(t) => t,
                    };
                    let returns_void = match ret_type {
                        IrType::Void => true,
                        _ => false,
                    };
                    Ok(Some((args.len() as u128, returns_void)))
                } else {
                    Ok(None)
                }
            },
        },
    }
}

/// The arguments that a call passes: the computed ones, with the
/// allocation frame `sp` before them where the callee is declared with
/// exactly one parameter more than there are arguments.
pub open spec fn call_args(params: Seq<Value>, declared: nat, sp: Value) -> Seq<Value> {
    if params.len() + 1 == declared {
        seq![sp] + params
    } else {
        params
    }
}

/// The name under which the result of a call is shown.
pub open spec fn call_name(returns_void: bool) -> Seq<char> {
    if returns_void {
        ""@
    } else {
        "callret"@
    }
}

/// The call instruction.
pub open spec fn call_instr(
    callee: Seq<char>,
    declared: nat,
    returns_void: bool,
    params: Seq<Value>,
    sp: Value,
) -> InstrView {
    InstrView::Call {
        callee,
        args: call_args(params, declared, sp),
        name: call_name(returns_void),
    }
}

/// Emits the call of `callee` and returns the handle on its result.
pub fn append_func_call(
    builder: &mut Builder,
    callee: &str,
    declared: u128,
    returns_void: bool,
    computed_params: Vec<Value>,
    sp: Value,
) -> (r: Value)
    ensures
        final(builder).deep_view() == old(builder).deep_view().emit(
            call_instr(callee@, declared as nat, returns_void, computed_params@, sp),
        ),
        r == old(builder).deep_view().next_value(),
{
    let mut args = computed_params;
    if args.len() as u128 + 1 == declared {
        args.insert(0, sp);
        assert(args@ =~= seq![sp] + computed_params@);
    }
    let name = if returns_void {
        ""
    } else {
        "callret"
    };
    builder.emit(Instr::Call { callee: callee.to_owned(), args, name: name.to_owned() })
}

/// The code of a call of `func_id` with the computed arguments `params`
/// in the allocation frame `sp`.
///
/// A function of the program and a symbol of the runtime library are
/// called; every other built-in is expanded in place.
pub open spec fn call_code(
    cx: CodegenContextView,
    b: BuilderView,
    func_id: Seq<char>,
    params: Seq<Value>,
    sp: Value,
) -> Result<(BuilderView, Value), CodegenErrorView> {
    match call_target(cx, func_id) {
        Err(e) => Err(e),
        Ok(Some((declared, returns_void))) => Ok(
            (b.emit(call_instr(func_id, declared, returns_void, params, sp)), b.next_value()),
        ),
        Ok(None) => match build_in_code(cx, b, func_id, params, sp) {
            Err(e) => Err(e),
            Ok(None) => Err(CodegenErrorView::UnknownFunction(func_id)),
            Ok(Some(done)) => Ok(done),
        },
    }
}

/// Emits the call of `func_id` with the computed arguments and returns
/// the handle on its result.
pub fn create_func_call(
    cc: &CodegenContext,
    builder: &mut Builder,
    func_id: &String,
    computed_params: Vec<Value>,
    sp: Value,
) -> (r: Result<Value, CodegenError>)
    ensures
        emitted(
            r,
            final(builder).deep_view(),
            call_code(cc.deep_view(), old(builder).deep_view(), func_id@, computed_params@, sp),
        ),
{
    match find_call_target(cc, func_id) {
        Err(e) => Err(e),
        Ok(Some((declared, returns_void))) => Ok(
            append_func_call(
                builder,
                func_id.as_str(),
                declared,
                returns_void,
                computed_params,
                sp,
            ),
        ),
        Ok(None) => match get_build_in_func_call(cc, builder, func_id, &computed_params, sp) {
            Err(e) => Err(e),
            Ok(None) => Err(CodegenError::UnknownFunction(func_id.clone())),
            Ok(Some(val)) => Ok(val),
        },
    }
}

/// The declaration of the function `name` with parameters of the types
/// `args` and a result of the type `ret_type`. A function of the program
/// other than the entry wrapper takes the allocation frame as one more
/// parameter, the first.
pub open spec fn declaration(
    cx: CodegenContextView,
    name: Seq<char>,
    args: Seq<Seq<char>>,
    ret_type: Seq<char>,
    is_var_arg: bool,
    is_build_in: bool,
    is_main: bool,
) -> Result<IrFunctionView, CodegenErrorView> {
    match field_types(cx.structs, args) {
        Err(e) => Err(e),
        Ok(params) => match ir_type(cx.structs, ret_type) {
            Err(e) => Err(e),
            Ok(ret) => Ok(
                IrFunctionView {
                    name,
                    params: if !is_build_in && !is_main {
                        seq![IrTypeView::Pointer(Box::new(IrTypeView::Int(8)))] + params
                    } else {
                        params
                    },
                    ret_type: ret,
                    is_var_arg,
                    body: None,
                },
            ),
        },
    }
}

/// Declares a function.
pub fn init_function(
    cc: &CodegenContext,
    name: &str,
    args: &Vec<String>,
    ret_type: &str,
    is_var_arg: bool,
    is_build_in: bool,
    is_main: bool,
) -> (r: Result<IrFunction, CodegenError>)
    ensures
        outcome(r) == declaration(
            cc.deep_view(),
            name@,
            args.deep_view(),
            ret_type@,
            is_var_arg,
            is_build_in,
            is_main,
        ),
{
    let mut args_type = match types_of_fields(&cc.llvm_structs, args) {
        Err(e) => {
            return Err(e);
        },
        Ok(t) => t,
    };
    let ghost params = args_type.deep_view();
    if !is_build_in && !is_main {
        let frame = pointer_to(IrType::Int(8));
        args_type.insert(0, frame);
        assert(args_type.deep_view() =~= seq![
            IrTypeView::Pointer(Box::new(IrTypeView::Int(8))),
        ] + params);
    }
    let ret = match type_to_llvm_type(&cc.llvm_structs, ret_type) {
        Err(e) => {
            return Err(e);
        },
        Ok(t) => t,
    };
    Ok(
        IrFunction {
            name: name.to_owned(),
            params: args_type,
            ret_type: ret,
            is_var_arg,
            body: None,
        },
    )
}

/// The builder of a function that has no block yet.
pub open spec fn empty_builder() -> BuilderView {
    BuilderView { blocks: seq![], instrs: seq![], current: 0 }
}

/// The builder after the block `entry` is added and entered.
pub open spec fn entry_code(b: BuilderView) -> BuilderView {
    b.append_block("entry"@).position_at_end(b.blocks.len() as usize)
}

/// Adds the block `entry` and moves the builder to it.
pub fn create_entry(builder: &mut Builder)
    ensures
        final(builder).deep_view() == entry_code(old(builder).deep_view()),
{
    let bb = builder.append_block("entry");
    builder.position_at_end(bb);
}

/// The position of parameter `i` among the parameters of the function:
/// after the allocation frame, where the function takes one.
pub open spec fn param_value(i: int, is_main: bool) -> Value {
    Value::Param(
        (if is_main {
            i
        } else {
            i + 1
        }) as usize,
    )
}

/// The code that stores the first `n` parameters to slots of their own: a
/// parameter on the heap to a slot of the allocation frame, so that no
/// allocation in the body can lose it. Returns the slots by name and the
/// frame after them.
pub open spec fn prologue_code(
    cx: CodegenContextView,
    b: BuilderView,
    sp: Value,
    args: Seq<BinParamDefView>,
    is_main: bool,
    n: nat,
) -> Result<(BuilderView, Slots, Value), CodegenErrorView>
    decreases n,
{
    if n == 0 || n > args.len() {
        Ok((b, seq![], sp))
    } else {
        match prologue_code(cx, b, sp, args, is_main, (n - 1) as nat) {
            Err(e) => Err(e),
            Ok((before, vars, frame)) => match slot_code(
                cx,
                before,
                frame,
                args[n - 1].name,
                args[n - 1].param_type,
            ) {
                Err(e) => Err(e),
                Ok((with_slot, var, new_frame)) => Ok(
                    (
                        with_slot.emit(
                            InstrView::Store { value: param_value(n - 1, is_main), ptr: var },
                        ),
                        vars.push((args[n - 1].name, var)),
                        new_frame,
                    ),
                ),
            },
        }
    }
}

/// Where the first `k` parameters fail, all of them fail in the same
/// way.
pub proof fn lemma_prologue_error(
    cx: CodegenContextView,
    b: BuilderView,
    sp: Value,
    args: Seq<BinParamDefView>,
    is_main: bool,
    k: nat,
)
    requires
        k <= args.len(),
        prologue_code(cx, b, sp, args, is_main, k) is Err,
    ensures
        prologue_code(cx, b, sp, args, is_main, args.len()) == prologue_code(
            cx,
            b,
            sp,
            args,
            is_main,
            k,
        ),
    decreases args.len() - k,
{
    if k < args.len() {
        lemma_prologue_error(cx, b, sp, args, is_main, k + 1);
    }
}

/// The code that gives up the reference of each of the first `n`
/// parameters that is on the heap.
pub open spec fn epilogue_code<Gc: GC>(
    cx: CodegenContextView,
    b: BuilderView,
    sp: Value,
    args: Seq<BinParamDefView>,
    is_main: bool,
    n: nat,
) -> Result<BuilderView, CodegenErrorView>
    decreases n,
{
    if n == 0 || n > args.len() {
        Ok(b)
    } else {
        match epilogue_code::<Gc>(cx, b, sp, args, is_main, (n - 1) as nat) {
            Err(e) => Err(e),
            Ok(before) => if is_user_type(args[n - 1].param_type) {
                Gc::drop_code(cx, before, param_value(n - 1, is_main), sp)
            } else {
                Ok(before)
            },
        }
    }
}

/// Where giving up the first `k` parameters fails, giving up all of them
/// fails in the same way.
pub proof fn lemma_epilogue_error<Gc: GC>(
    cx: CodegenContextView,
    b: BuilderView,
    sp: Value,
    args: Seq<BinParamDefView>,
    is_main: bool,
    k: nat,
)
    requires
        k <= args.len(),
        epilogue_code::<Gc>(cx, b, sp, args, is_main, k) is Err,
    ensures
        epilogue_code::<Gc>(cx, b, sp, args, is_main, args.len()) == epilogue_code::<Gc>(
            cx,
            b,
            sp,
            args,
            is_main,
            k,
        ),
    decreases args.len() - k,
{
    if k < args.len() {
        lemma_epilogue_error::<Gc>(cx, b, sp, args, is_main, k + 1);
    }
}

/// The frame that the body of a function starts in, and the code that
/// gets it: the entry function sets the heap up and opens the first
/// frame; every other function is handed its frame as first parameter.
pub open spec fn frame_code<Gc: GC>(cx: CodegenContextView, b: BuilderView, is_main: bool) -> Result<
    (BuilderView, Value),
    CodegenErrorView,
> {
    if is_main {
        match Gc::heap_start_code(cx, b) {
            Err(e) => Err(e),
            Ok(started) => call_code(cx, started, "init_stack"@, seq![], Value::Absent),
        }
    } else {
        Ok((b, Value::Param(0)))
    }
}

/// The code that ends the program where the function is the entry
/// function: the last frame is closed and the heap is taken down.
pub open spec fn shutdown_code<Gc: GC>(cx: CodegenContextView, b: BuilderView, is_main: bool) -> Result<
    BuilderView,
    CodegenErrorView,
> {
    if is_main {
        match call_code(cx, b, "close_stack"@, seq![], Value::Absent) {
            Err(e) => Err(e),
            Ok((closed, _)) => Gc::heap_end_code(cx, closed),
        }
    } else {
        Ok(b)
    }
}

/// The body of a function.
///
/// The prologue stores every parameter to a slot of its own. Then comes
/// the code of the body. The epilogue gives up the reference of every
/// parameter on the heap; a function that returns `void` also gives up
/// the value of its body where that is on the heap, and returns nothing;
/// every other function returns the value of its body.
pub open spec fn function_code<Gc: GC>(cx: CodegenContextView, f: BinFunctionView, is_main: bool) -> Result<
    BuilderView,
    CodegenErrorView,
> {
    let entry = entry_code(empty_builder());
    match frame_code::<Gc>(cx, entry, is_main) {
        Err(e) => Err(e),
        Ok((framed, frame)) => match prologue_code(
            cx,
            framed,
            frame,
            f.args,
            is_main,
            f.args.len(),
        ) {
            Err(e) => Err(e),
            Ok((stored, vars, sp)) => match lower::<Gc>(cx, stored, vars, sp, f.body) {
                Err(e) => Err(e),
                Ok((computed, res)) => match epilogue_code::<Gc>(
                    cx,
                    computed,
                    sp,
                    f.args,
                    is_main,
                    f.args.len(),
                ) {
                    Err(e) => Err(e),
                    Ok(released) => match if f.ret_type == VOID_TYPE@ && is_user_type(
                        f.body.expr_type,
                    ) {
                        Gc::drop_code(cx, released, res, sp)
                    } else {
                        Ok(released)
                    } {
                        Err(e) => Err(e),
                        Ok(dropped) => match shutdown_code::<Gc>(cx, dropped, is_main) {
                            Err(e) => Err(e),
                            Ok(closed) => Ok(
                                closed.emit(
                                    if f.ret_type == VOID_TYPE@ {
                                        InstrView::RetVoid
                                    } else {
                                        InstrView::Ret { value: res }
                                    },
                                ),
                            ),
                        },
                    },
                },
            },
        },
    }
}

/// Builds the body of a function. `is_main` says that the function is
/// the entry function of the target.
pub fn build_function<Gc: GC>(cc: &CodegenContext, function: &BinFunction, is_main: bool) -> (r:
    Result<Builder, CodegenError>)
    ensures
        outcome(r) == function_code::<Gc>(cc.deep_view(), function.deep_view(), is_main),
{
    let ghost cx = cc.deep_view();
    let ghost args = function.args.deep_view();
    let mut builder = Builder::new();
    create_entry(&mut builder);
    let frame = if is_main {
        match Gc::init_heap(cc, &mut builder) {
            Err(e) => {
                return Err(e);
            },
            Ok(_) => {},
        }
        match create_func_call(
            cc,
            &mut builder,
            &"init_stack".to_owned(),
            Vec::new(),
            Value::Absent,
        ) {
            Err(e) => {
                return Err(e);
            },
            Ok(v) => v,
        }
    } else {
        Value::Param(0)
    };
    let ghost framed = builder.deep_view();
    let mut sp = frame;
    let mut vars: Vec<(String, Value)> = Vec::new();
    let mut i: usize = 0;
    assert(vars.deep_view() =~= Seq::<(Seq<char>, Value)>::empty());
    while i < function.args.len()
        invariant
            i <= function.args.len(),
            cx == cc.deep_view(),
            args == function.args.deep_view(),
            prologue_code(cx, framed, frame, args, is_main, i as nat) == Ok::<
                (BuilderView, Slots, Value),
                CodegenErrorView,
            >((builder.deep_view(), vars.deep_view(), sp)),
            frame_code::<Gc>(cx, entry_code(empty_builder()), is_main) == Ok::<
                (BuilderView, Value),
                CodegenErrorView,
            >((framed, frame)),
        decreases function.args.len() - i,
    {
        let param = &function.args[i];
        assert(args[i as int] == param.deep_view());
        let id = if is_main {
            Value::Param(i)
        } else {
            Value::Param(i + 1)
        };
        let (var, new_sp) = match make_slot(
            cc,
            &mut builder,
            sp,
            param.name.as_str(),
            param.param_type.as_str(),
        ) {
            Err(e) => {
                proof {
                    lemma_prologue_error(cx, framed, frame, args, is_main, (i + 1) as nat);
                }
                return Err(e);
            },
            Ok(slot) => slot,
        };
        sp = new_sp;
        builder.emit(Instr::Store { value: id, ptr: var });
        let ghost before = vars.deep_view();
        vars.push((param.name.clone(), var));
        assert(vars.deep_view() =~= before.push((param.name@, var)));
        i += 1;
    }
    let ghost scope = vars.deep_view();
    let ghost stored = builder.deep_view();
    let res = match build_expression::<Gc>(cc, &mut builder, &mut vars, sp, &function.body) {
        Err(e) => {
            return Err(e);
        },
        Ok(v) => v,
    };
    let ghost computed = builder.deep_view();
    let mut k: usize = 0;
    while k < function.args.len()
        invariant
            k <= function.args.len(),
            cx == cc.deep_view(),
            args == function.args.deep_view(),
            epilogue_code::<Gc>(cx, computed, sp, args, is_main, k as nat) == Ok::<
                BuilderView,
                CodegenErrorView,
            >(builder.deep_view()),
            frame_code::<Gc>(cx, entry_code(empty_builder()), is_main) == Ok::<
                (BuilderView, Value),
                CodegenErrorView,
            >((framed, frame)),
            prologue_code(cx, framed, frame, args, is_main, args.len()) == Ok::<
                (BuilderView, Slots, Value),
                CodegenErrorView,
            >((stored, scope, sp)),
            lower::<Gc>(cx, stored, scope, sp, function.body.deep_view()) == Ok::<
                (BuilderView, Value),
                CodegenErrorView,
            >((computed, res)),
        decreases function.args.len() - k,
    {
        let param = &function.args[k];
        assert(args[k as int] == param.deep_view());
        if is_user_type_name(param.param_type.as_str()) {
            let id = if is_main {
                Value::Param(k)
            } else {
                Value::Param(k + 1)
            };
            match Gc::type_ptr_drop(cc, &mut builder, id, sp) {
                Err(e) => {
                    proof {
                        lemma_epilogue_error::<Gc>(
                            cx,
                            computed,
                            sp,
                            args,
                            is_main,
                            (k + 1) as nat,
                        );
                    }
                    return Err(e);
                },
                Ok(_) => {},
            }
        }
        k += 1;
    }
    let returns_nothing = str_eq(function.ret_type.as_str(), VOID_TYPE);
    if returns_nothing && is_user_type_name(function.body.expr_type.as_str()) {
        // The value of the body is not returned, so its reference is
        // given up.
        match Gc::type_ptr_drop(cc, &mut builder, res, sp) {
            Err(e) => {
                return Err(e);
            },
            Ok(_) => {},
        }
    }
    if is_main {
        match create_func_call(
            cc,
            &mut builder,
            &"close_stack".to_owned(),
            Vec::new(),
            Value::Absent,
        ) {
            Err(e) => {
                return Err(e);
            },
            Ok(_) => {},
        }
        match Gc::close_heap(cc, &mut builder) {
            Err(e) => {
                return Err(e);
            },
            Ok(_) => {},
        }
    }
    if returns_nothing {
        builder.emit(Instr::RetVoid);
    } else {
        builder.emit(Instr::Ret { value: res });
    }
    Ok(builder)
}

/// The types of the parameters, in order.
pub open spec fn param_types(args: Seq<BinParamDefView>) -> Seq<Seq<char>> {
    Seq::new(args.len(), |i: int| args[i].param_type)
}

/// The function `name` of the program with its body: its declaration,
/// and the code of `f` in it.
pub open spec fn built_function<Gc: GC>(
    cx: CodegenContextView,
    name: Seq<char>,
    f: BinFunctionView,
    is_main: bool,
) -> Result<IrFunctionView, CodegenErrorView> {
    match declaration(cx, name, param_types(f.args), f.ret_type, false, false, is_main) {
        Err(e) => Err(e),
        Ok(declared) => match function_code::<Gc>(cx, f, is_main) {
            Err(e) => Err(e),
            Ok(body) => Ok(IrFunctionView { body: Some(body), ..declared }),
        },
    }
}

/// Declares the function `func_name` and builds its body from
/// `func_def`.
pub fn init_build_function<Gc: GC>(
    cc: &CodegenContext,
    func_name: &str,
    args: &Vec<String>,
    ret_type: &str,
    is_var_arg: bool,
    func_def: &BinFunction,
    is_main: bool,
) -> (r: Result<IrFunction, CodegenError>)
    ensures
        outcome(r) == match declaration(
            cc.deep_view(),
            func_name@,
            args.deep_view(),
            ret_type@,
            is_var_arg,
            false,
            is_main,
        ) {
            Err(e) => Err(e),
            Ok(declared) => match function_code::<Gc>(
                cc.deep_view(),
                func_def.deep_view(),
                is_main,
            ) {
                Err(e) => Err(e),
                Ok(body) => Ok(IrFunctionView { body: Some(body), ..declared }),
            },
        },
{
    let mut llvm_func = match init_function(
        cc,
        func_name,
        args,
        ret_type,
        is_var_arg,
        false,
        is_main,
    ) {
        Err(e) => {
            return Err(e);
        },
        Ok(f) => f,
    };
    let body = match build_function::<Gc>(cc, func_def, is_main) {
        Err(e) => {
            return Err(e);
        },
        Ok(b) => b,
    };
    llvm_func.body = Some(body);
    Ok(llvm_func)
}

} // verus!
