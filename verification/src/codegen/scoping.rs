//! Code generation finds every variable of a well-scoped program: what the
//! checker lets through never makes it fail for an unbound variable.
use crate::binary::{
    expr_size, exprs_size, lemma_expr_size_positive, lemma_exprs_size_bounds, BinExprView,
    BinFunctionView, BinParamDefView, TypedExprView,
};
use crate::codegen::build_in::{BuildIn, inline_code};
use crate::codegen::expression::{
    construction_code, frame_slot_code, if_code, let_code, lower, only_if, params_code,
    slot_code, Slots,
};
use crate::codegen::function::{
    call_code, call_target, epilogue_code, frame_code, function_code, prologue_code,
};
use crate::codegen::garbage_collection::{ARC, GC, pointer_hook, Spill, TGC};
use crate::codegen::ir::{BuilderView, CodegenErrorView, InstrView, IrTypeView, Value};
use crate::codegen::CodegenContextView;
use crate::lookup::lookup_last;
use crate::type_check::consistency::{param_names, scope_names, scoped};
use crate::types::{ir_type, is_user_type};
use vstd::prelude::*;

verus! {

/// Whether an answer of code generation is anything but the report of an
/// unbound variable.
pub open spec fn binds<T>(r: Result<T, CodegenErrorView>) -> bool {
    match r {
        Err(CodegenErrorView::VariableNotFound(_)) => false,
        _ => true,
    }
}

/// Whether the code of a strategy never reports an unbound variable: a
/// strategy reads no variables.
pub open spec fn reads_no_variables<Gc: GC>() -> bool {
    &&& forall|cx: CodegenContextView, b: BuilderView, ptr: Value, sp: Value|
        binds(#[trigger] Gc::access_code(cx, b, ptr, sp))
    &&& forall|cx: CodegenContextView, b: BuilderView, ptr: Value, sp: Value|
        binds(#[trigger] Gc::drop_code(cx, b, ptr, sp))
    &&& forall|cx: CodegenContextView, b: BuilderView, size: Value, sp: Value|
        binds(#[trigger] Gc::allocation_code(cx, b, size, sp))
    &&& forall|cx: CodegenContextView, b: BuilderView| binds(#[trigger] Gc::heap_start_code(cx, b))
    &&& forall|cx: CodegenContextView, b: BuilderView| binds(#[trigger] Gc::heap_end_code(cx, b))
}

/// A call reads no variables.
pub proof fn lemma_call_binds(
    cx: CodegenContextView,
    b: BuilderView,
    func_id: Seq<char>,
    params: Seq<Value>,
    sp: Value,
)
    ensures
        binds(call_code(cx, b, func_id, params, sp)),
{
    match call_target(cx, func_id) {
        Ok(None) => {
            match BuildIn::named(func_id) {
                Some(build_in) => {
                    match build_in.inline() {
                        Some(kind) => {
                            assert(binds(inline_code(cx, b, kind, func_id, params, sp)));
                        },
                        None => {},
                    }
                },
                None => {},
            }
        },
        _ => {},
    }
}

/// The arena strategy reads no variables.
pub proof fn lemma_spill_reads_no_variables()
    ensures
        reads_no_variables::<Spill>(),
{
    assert forall|cx: CodegenContextView, b: BuilderView, size: Value, sp: Value|
        binds(#[trigger] Spill::allocation_code(cx, b, size, sp)) by {
        lemma_call_binds(cx, b, BuildIn::type_alloc.name(), seq![size, sp], sp);
    }
    assert forall|cx: CodegenContextView, b: BuilderView|
        binds(#[trigger] Spill::heap_start_code(cx, b)) by {
        lemma_call_binds(cx, b, BuildIn::init_heap.name(), seq![], Value::Absent);
    }
    assert forall|cx: CodegenContextView, b: BuilderView|
        binds(#[trigger] Spill::heap_end_code(cx, b)) by {
        lemma_call_binds(cx, b, BuildIn::close_heap.name(), seq![], Value::Absent);
    }
}

/// The code that hands a pointer to the runtime reads no variables.
proof fn lemma_pointer_hook_binds(
    cx: CodegenContextView,
    b: BuilderView,
    symbol: Seq<char>,
    ptr: Value,
    sp: Value,
)
    ensures
        binds(pointer_hook(cx, b, symbol, ptr, sp)),
{
    let cast = b.emit(
        InstrView::BitCast {
            value: ptr,
            ty: IrTypeView::Pointer(Box::new(IrTypeView::Int(8))),
            name: "arc_count"@,
        },
    );
    lemma_call_binds(cx, cast, symbol, seq![b.next_value(), sp], Value::Absent);
}

/// The reference-counted strategy reads no variables.
pub proof fn lemma_arc_reads_no_variables()
    ensures
        reads_no_variables::<ARC>(),
{
    assert forall|cx: CodegenContextView, b: BuilderView, ptr: Value, sp: Value|
        binds(#[trigger] ARC::access_code(cx, b, ptr, sp)) by {
        lemma_pointer_hook_binds(cx, b, BuildIn::arc_ptr_access.name(), ptr, sp);
    }
    assert forall|cx: CodegenContextView, b: BuilderView, ptr: Value, sp: Value|
        binds(#[trigger] ARC::drop_code(cx, b, ptr, sp)) by {
        lemma_pointer_hook_binds(cx, b, BuildIn::arc_drop_ptr.name(), ptr, sp);
    }
    assert forall|cx: CodegenContextView, b: BuilderView, size: Value, sp: Value|
        binds(#[trigger] ARC::allocation_code(cx, b, size, sp)) by {
        lemma_call_binds(cx, b, BuildIn::type_alloc.name(), seq![size, sp], sp);
    }
    assert forall|cx: CodegenContextView, b: BuilderView|
        binds(#[trigger] ARC::heap_start_code(cx, b)) by {
        lemma_call_binds(cx, b, BuildIn::init_heap.name(), seq![], Value::Absent);
    }
    assert forall|cx: CodegenContextView, b: BuilderView|
        binds(#[trigger] ARC::heap_end_code(cx, b)) by {
        lemma_call_binds(cx, b, BuildIn::close_heap.name(), seq![], Value::Absent);
    }
}

/// The tracing strategy reads no variables.
pub proof fn lemma_tgc_reads_no_variables()
    ensures
        reads_no_variables::<TGC>(),
{
    assert forall|cx: CodegenContextView, b: BuilderView, size: Value, sp: Value|
        binds(#[trigger] TGC::allocation_code(cx, b, size, sp)) by {
        lemma_call_binds(cx, b, BuildIn::tgc_type_alloc.name(), seq![size, sp], sp);
    }
    assert forall|cx: CodegenContextView, b: BuilderView|
        binds(#[trigger] TGC::heap_start_code(cx, b)) by {
        lemma_call_binds(cx, b, BuildIn::tgc_init_heap.name(), seq![], Value::Absent);
    }
    assert forall|cx: CodegenContextView, b: BuilderView|
        binds(#[trigger] TGC::heap_end_code(cx, b)) by {
        lemma_call_binds(cx, b, BuildIn::tgc_close_heap.name(), seq![], Value::Absent);
    }
}

/// A name of a scope has a slot in it.
proof fn lemma_named_is_found(vars: Slots, name: Seq<char>)
    requires
        scope_names(vars).contains(name),
    ensures
        lookup_last(vars, name) is Some,
    decreases vars.len(),
{
    let i = choose|i: int| 0 <= i < scope_names(vars).len() && scope_names(vars)[i] == name;
    if vars.last().0 != name {
        assert(scope_names(vars.drop_last())[i] == name);
        lemma_named_is_found(vars.drop_last(), name);
    }
}

/// Taking a slot of the allocation frame reads no variables.
proof fn lemma_frame_slot_binds(
    cx: CodegenContextView,
    b: BuilderView,
    sp: Value,
    name: Seq<char>,
    ty: Seq<char>,
)
    ensures
        binds(frame_slot_code(cx, b, sp, name, ty)),
{
    lemma_call_binds(cx, b, "stack_alloc"@, seq![sp], sp);
}

/// The code of an expression that reads only the variables that have
/// slots, and its own bindings, finds every variable it reads: code
/// generation does not report an unbound variable for it.
pub proof fn lemma_scoped_lowers<Gc: GC>(
    cx: CodegenContextView,
    b: BuilderView,
    vars: Slots,
    sp: Value,
    e: TypedExprView,
)
    requires
        reads_no_variables::<Gc>(),
        scoped(e, scope_names(vars)),
    ensures
        binds(lower::<Gc>(cx, b, vars, sp, e)),
    decreases expr_size(e), 0nat, 0nat,
{
    match e.expr {
        BinExprView::Const(c) => {
            assert(binds(lower::<Gc>(cx, b, vars, sp, e)));
        },
        BinExprView::FuncCall(func_id, params) => {
            lemma_scoped_params_lower::<Gc>(cx, b, vars, sp, params, params.len());
            match params_code::<Gc>(cx, b, vars, sp, params, params.len()) {
                Ok((computed, slots, new_sp)) => {
                    let (loaded, args) = crate::codegen::expression::loads_code(
                        computed,
                        slots,
                        slots.len(),
                    );
                    lemma_call_binds(cx, loaded, func_id, args, new_sp);
                },
                Err(_) => {},
            }
        },
        BinExprView::GetTypeCaseField(obj, case, index) => {
            lemma_scoped_lowers::<Gc>(cx, b, vars, sp, *obj);
            assert(binds(lower::<Gc>(cx, b, vars, sp, e)));
        },
        BinExprView::If(cond, then_expr, else_expr) => {
            match ir_type(cx.structs, e.expr_type) {
                Ok(ret_type) => {
                    lemma_scoped_if_lowers::<Gc>(
                        cx,
                        b,
                        vars,
                        sp,
                        *cond,
                        *then_expr,
                        *else_expr,
                        ret_type,
                    );
                },
                Err(_) => {},
            }
        },
        BinExprView::IsCase(obj, case) => {
            lemma_scoped_lowers::<Gc>(cx, b, vars, sp, *obj);
            assert(binds(lower::<Gc>(cx, b, vars, sp, e)));
        },
        BinExprView::Let(name, definition, body) => {
            lemma_scoped_let_lowers::<Gc>(cx, b, vars, sp, name, *definition, *body);
        },
        BinExprView::Sequence(first, second) => {
            lemma_scoped_lowers::<Gc>(cx, b, vars, sp, *first);
            match lower::<Gc>(cx, b, vars, sp, *first) {
                Ok((after_first, discarded)) => {
                    match only_if(
                        is_user_type(first.expr_type),
                        Gc::drop_code(cx, after_first, discarded, sp),
                        after_first,
                    ) {
                        Ok(dropped) => {
                            lemma_scoped_lowers::<Gc>(cx, dropped, vars, sp, *second);
                        },
                        Err(_) => {},
                    }
                },
                Err(_) => {},
            }
        },
        BinExprView::TypeCase(ty, case, fields) => {
            lemma_scoped_params_lower::<Gc>(cx, b, vars, sp, fields, fields.len());
            assert(binds(construction_code::<Gc>(cx, b, vars, sp, ty, case, fields)));
        },
        BinExprView::Var(name) => {
            lemma_named_is_found(vars, name);
            assert(binds(lower::<Gc>(cx, b, vars, sp, e)));
        },
    }
}

/// The code of a conditional whose parts are well scoped finds every
/// variable.
pub proof fn lemma_scoped_if_lowers<Gc: GC>(
    cx: CodegenContextView,
    b: BuilderView,
    vars: Slots,
    sp: Value,
    cond: TypedExprView,
    then_expr: TypedExprView,
    else_expr: TypedExprView,
    ret_type: IrTypeView,
)
    requires
        reads_no_variables::<Gc>(),
        scoped(cond, scope_names(vars)),
        scoped(then_expr, scope_names(vars)),
        scoped(else_expr, scope_names(vars)),
    ensures
        binds(if_code::<Gc>(cx, b, vars, sp, cond, then_expr, else_expr, ret_type)),
    decreases expr_size(cond) + expr_size(then_expr) + expr_size(else_expr), 1nat, 0nat,
{
    lemma_expr_size_positive(cond);
    lemma_expr_size_positive(then_expr);
    lemma_expr_size_positive(else_expr);
    let then_block = b.blocks.len() as usize;
    let else_block = (b.blocks.len() + 1) as usize;
    let blocks = b.append_block("then"@).append_block("else"@).append_block("continuation"@);
    lemma_scoped_lowers::<Gc>(cx, blocks, vars, sp, cond);
    match lower::<Gc>(cx, blocks, vars, sp, cond) {
        Ok((after_cond, condition)) => {
            let branched = after_cond.emit(
                InstrView::CondBr { cond: condition, then_block, else_block },
            ).position_at_end(then_block);
            lemma_scoped_lowers::<Gc>(cx, branched, vars, sp, then_expr);
            match lower::<Gc>(cx, branched, vars, sp, then_expr) {
                Ok((after_then, then_result)) => {
                    let left_then = after_then.emit(
                        InstrView::Br {
                            block: if then_expr.expr_type != crate::types::EXIT_TYPE@ {
                                (b.blocks.len() + 2) as usize
                            } else {
                                then_block
                            },
                        },
                    ).position_at_end(else_block);
                    lemma_scoped_lowers::<Gc>(cx, left_then, vars, sp, else_expr);
                },
                Err(_) => {},
            }
        },
        Err(_) => {},
    }
}

/// The code of a binding whose parts are well scoped finds every
/// variable: the body sees the variable that the binding binds.
pub proof fn lemma_scoped_let_lowers<Gc: GC>(
    cx: CodegenContextView,
    b: BuilderView,
    vars: Slots,
    sp: Value,
    name: Seq<char>,
    definition: TypedExprView,
    body: TypedExprView,
)
    requires
        reads_no_variables::<Gc>(),
        scoped(definition, scope_names(vars)),
        scoped(body, scope_names(vars).push(name)),
    ensures
        binds(let_code::<Gc>(cx, b, vars, sp, name, definition, body)),
    decreases expr_size(definition) + expr_size(body), 1nat, 0nat,
{
    lemma_expr_size_positive(definition);
    lemma_expr_size_positive(body);
    lemma_frame_slot_binds(cx, b, sp, name, definition.expr_type);
    match slot_code(cx, b, sp, name, definition.expr_type) {
        Ok((with_slot, variable, new_sp)) => {
            lemma_scoped_lowers::<Gc>(cx, with_slot, vars, sp, definition);
            match lower::<Gc>(cx, with_slot, vars, sp, definition) {
                Ok((defined, value)) => {
                    let inner = vars.push((name, variable));
                    assert(scope_names(inner) =~= scope_names(vars).push(name));
                    lemma_scoped_lowers::<Gc>(
                        cx,
                        defined.emit(InstrView::Store { value, ptr: variable }),
                        inner,
                        new_sp,
                        body,
                    );
                },
                Err(_) => {},
            }
        },
        Err(_) => {},
    }
}

/// The code of arguments that are well scoped finds every variable.
pub proof fn lemma_scoped_params_lower<Gc: GC>(
    cx: CodegenContextView,
    b: BuilderView,
    vars: Slots,
    sp: Value,
    params: Seq<TypedExprView>,
    n: nat,
)
    requires
        reads_no_variables::<Gc>(),
        forall|i: int| 0 <= i < params.len() ==> scoped(#[trigger] params[i], scope_names(vars)),
    ensures
        binds(params_code::<Gc>(cx, b, vars, sp, params, n)),
    decreases exprs_size(params), 1nat, n,
{
    if !(n == 0 || n > params.len()) {
        lemma_exprs_size_bounds(params, n - 1);
        lemma_scoped_params_lower::<Gc>(cx, b, vars, sp, params, (n - 1) as nat);
        match params_code::<Gc>(cx, b, vars, sp, params, (n - 1) as nat) {
            Ok((before, slots, frame)) => {
                lemma_scoped_lowers::<Gc>(cx, before, vars, frame, params[n - 1]);
                match lower::<Gc>(cx, before, vars, frame, params[n - 1]) {
                    Ok((computed, value)) => {
                        lemma_frame_slot_binds(
                            cx,
                            computed,
                            frame,
                            crate::codegen::expression::param_name((n - 1) as nat),
                            params[n - 1].expr_type,
                        );
                    },
                    Err(_) => {},
                }
            },
            Err(_) => {},
        }
    }
}

/// The names of the first `n` parameters, in order.
pub open spec fn first_names(args: Seq<BinParamDefView>, n: nat) -> Seq<Seq<char>> {
    Seq::new(n, |i: int| args[i].name)
}

/// The prologue gives every parameter a slot under its name, and reads no
/// variables.
proof fn lemma_prologue_names(
    cx: CodegenContextView,
    b: BuilderView,
    sp: Value,
    args: Seq<BinParamDefView>,
    is_main: bool,
    n: nat,
)
    requires
        n <= args.len(),
    ensures
        binds(prologue_code(cx, b, sp, args, is_main, n)),
        prologue_code(cx, b, sp, args, is_main, n) matches Ok((_, vars, _)) ==> scope_names(vars)
            == first_names(args, n),
    decreases n,
{
    if n > 0 {
        lemma_prologue_names(cx, b, sp, args, is_main, (n - 1) as nat);
        match prologue_code(cx, b, sp, args, is_main, (n - 1) as nat) {
            Ok((before, vars, frame)) => {
                lemma_frame_slot_binds(cx, before, frame, args[n - 1].name, args[n - 1].param_type);
                match slot_code(cx, before, frame, args[n - 1].name, args[n - 1].param_type) {
                    Ok((with_slot, var, new_frame)) => {
                        let extended = vars.push((args[n - 1].name, var));
                        assert(scope_names(vars).len() == n - 1);
                        assert forall|i: int| 0 <= i < n implies scope_names(extended)[i]
                            == first_names(args, n)[i] by {
                            if i < n - 1 {
                                assert(scope_names(vars)[i] == first_names(
                                    args,
                                    (n - 1) as nat,
                                )[i]);
                            }
                        }
                        assert(scope_names(extended) =~= first_names(args, n));
                    },
                    Err(_) => {},
                }
            },
            Err(_) => {},
        }
    } else {
        assert(scope_names(Seq::<(Seq<char>, Value)>::empty()) =~= first_names(args, 0));
    }
}

/// The epilogue reads no variables.
proof fn lemma_epilogue_binds<Gc: GC>(
    cx: CodegenContextView,
    b: BuilderView,
    sp: Value,
    args: Seq<BinParamDefView>,
    is_main: bool,
    n: nat,
)
    requires
        reads_no_variables::<Gc>(),
    ensures
        binds(epilogue_code::<Gc>(cx, b, sp, args, is_main, n)),
    decreases n,
{
    if !(n == 0 || n > args.len()) {
        lemma_epilogue_binds::<Gc>(cx, b, sp, args, is_main, (n - 1) as nat);
    }
}

/// The body of a function whose expression reads only the parameters and
/// its own bindings is built without the report of an unbound variable.
pub proof fn lemma_scoped_function_builds<Gc: GC>(
    cx: CodegenContextView,
    f: BinFunctionView,
    is_main: bool,
)
    requires
        reads_no_variables::<Gc>(),
        scoped(f.body, param_names(f)),
    ensures
        binds(function_code::<Gc>(cx, f, is_main)),
{
    let entry = crate::codegen::function::entry_code(crate::codegen::function::empty_builder());
    if is_main {
        match Gc::heap_start_code(cx, entry) {
            Ok(started) => {
                lemma_call_binds(cx, started, "init_stack"@, seq![], Value::Absent);
            },
            Err(_) => {},
        }
    }
    match frame_code::<Gc>(cx, entry, is_main) {
        Ok((framed, frame)) => {
            lemma_prologue_names(cx, framed, frame, f.args, is_main, f.args.len());
            match prologue_code(cx, framed, frame, f.args, is_main, f.args.len()) {
                Ok((stored, vars, sp)) => {
                    assert(first_names(f.args, f.args.len()) =~= param_names(f));
                    lemma_scoped_lowers::<Gc>(cx, stored, vars, sp, f.body);
                    match lower::<Gc>(cx, stored, vars, sp, f.body) {
                        Ok((computed, res)) => {
                            lemma_epilogue_binds::<Gc>(
                                cx,
                                computed,
                                sp,
                                f.args,
                                is_main,
                                f.args.len(),
                            );
                            match epilogue_code::<Gc>(
                                cx,
                                computed,
                                sp,
                                f.args,
                                is_main,
                                f.args.len(),
                            ) {
                                Ok(released) => {
                                    let dropped = if f.ret_type == crate::types::VOID_TYPE@
                                        && is_user_type(f.body.expr_type) {
                                        Gc::drop_code(cx, released, res, sp)
                                    } else {
                                        Ok(released)
                                    };
                                    match dropped {
                                        Ok(d) => {
                                            if is_main {
                                                lemma_call_binds(
                                                    cx,
                                                    d,
                                                    "close_stack"@,
                                                    seq![],
                                                    Value::Absent,
                                                );
                                            }
                                        },
                                        Err(_) => {},
                                    }
                                },
                                Err(_) => {},
                            }
                        },
                        Err(_) => {},
                    }
                },
                Err(_) => {},
            }
        },
        Err(_) => {},
    }
}

/// What the checker lets through, code generation can name: the body of
/// a function that the checker made is built, under each of the three
/// strategies, without the report of an unbound variable.
pub proof fn lemma_checked_function_builds(
    checked: crate::type_check::rules::Context,
    f: crate::module::FunctionView,
    cx: CodegenContextView,
    is_main: bool,
)
    requires
        crate::type_check::check_function(checked, f) is Ok,
    ensures
        binds(
            function_code::<Spill>(cx, crate::type_check::check_function(checked, f)->Ok_0, is_main),
        ),
        binds(
            function_code::<ARC>(cx, crate::type_check::check_function(checked, f)->Ok_0, is_main),
        ),
        binds(
            function_code::<TGC>(cx, crate::type_check::check_function(checked, f)->Ok_0, is_main),
        ),
{
    let made = crate::type_check::check_function(checked, f)->Ok_0;
    crate::type_check::consistency::lemma_checked_function(checked, f);
    lemma_spill_reads_no_variables();
    lemma_arc_reads_no_variables();
    lemma_tgc_reads_no_variables();
    lemma_scoped_function_builds::<Spill>(cx, made, is_main);
    lemma_scoped_function_builds::<ARC>(cx, made, is_main);
    lemma_scoped_function_builds::<TGC>(cx, made, is_main);
}

} // verus!
