//! What the code of an expression asks of the reference counter: how
//! often a reference is taken and how often one is given up.
use crate::binary::{
    expr_size, exprs_size, lemma_expr_size_positive, lemma_exprs_size_bounds, BinExprView,
    TypedExprView,
};
use crate::codegen::build_in::{BuildIn, Inline, lemma_names_differ, lemma_names_distinct};
use crate::codegen::expression::{
    construction_code, field_address, frame_slot_code, if_code, least, let_code, loads_code, lower,
    nulls_code, only_if, param_name, params_code, ParamSlot, slot_code, Slots, stores_code,
};
use crate::codegen::function::{call_code, call_instr, call_target};
use crate::codegen::garbage_collection::{ARC, GC, header_address, pointer_hook};
use crate::codegen::ir::{BuilderView, InstrView, IntPredicate, IrTypeView, Value};
use crate::codegen::CodegenContextView;
use crate::lookup::lookup_last;
use crate::types::{case_layout, ir_type, is_user_type, EXIT_TYPE};
use vstd::prelude::*;

verus! {

/// Whether `instr` is a call of the function `symbol`.
pub open spec fn is_call_of(instr: InstrView, symbol: Seq<char>) -> bool {
    instr matches InstrView::Call { callee, .. } && callee == symbol
}

/// The number of calls of `symbol` among `instrs`.
pub open spec fn count_calls(instrs: Seq<(usize, InstrView)>, symbol: Seq<char>) -> nat
    decreases instrs.len(),
{
    if instrs.len() == 0 {
        0
    } else {
        count_calls(instrs.drop_last(), symbol) + if is_call_of(instrs.last().1, symbol) {
            1nat
        } else {
            0nat
        }
    }
}

/// The two calls by which the code of the reference-counted strategy
/// talks to the counter.
pub open spec fn is_hook(hook: BuildIn) -> bool {
    hook == BuildIn::arc_ptr_access || hook == BuildIn::arc_drop_ptr
}

/// One where `wanted` holds, else none.
pub open spec fn one_if(wanted: bool) -> nat {
    if wanted {
        1
    } else {
        0
    }
}

/// How often the code of `e` calls `hook` under the reference-counted
/// strategy.
///
/// A reference is taken once for every read of a variable and of a field
/// whose value is on the heap. A reference is given up once for every
/// object that a field is read of or that is tested for a case, once for
/// every value on the heap that a sequence discards, and once for every
/// `let` that binds a value on the heap. A call that the program itself
/// makes of a function of the name of the hook counts as well.
pub open spec fn hook_uses(e: TypedExprView, hook: BuildIn) -> nat
    decreases expr_size(e), 0nat,
{
    let takes = hook == BuildIn::arc_ptr_access;
    let gives = hook == BuildIn::arc_drop_ptr;
    match e.expr {
        BinExprView::Const(_) => 0,
        BinExprView::FuncCall(id, params) => hook_uses_all(params, params.len(), hook) + one_if(
            id == hook.name(),
        ),
        BinExprView::GetTypeCaseField(obj, _, _) => hook_uses(*obj, hook) + one_if(
            takes && is_user_type(e.expr_type),
        ) + one_if(gives),
        BinExprView::If(cond, then_expr, else_expr) => hook_uses(*cond, hook) + hook_uses(
            *then_expr,
            hook,
        ) + hook_uses(*else_expr, hook),
        BinExprView::IsCase(obj, _) => hook_uses(*obj, hook) + one_if(gives),
        BinExprView::Let(_, definition, body) => hook_uses(*definition, hook) + hook_uses(
            *body,
            hook,
        ) + one_if(gives && is_user_type(definition.expr_type)),
        BinExprView::Sequence(first, second) => hook_uses(*first, hook) + hook_uses(
            *second,
            hook,
        ) + one_if(gives && is_user_type(first.expr_type)),
        BinExprView::TypeCase(_, _, fields) => hook_uses_all(fields, fields.len(), hook),
        BinExprView::Var(_) => one_if(takes && is_user_type(e.expr_type)),
    }
}

/// How often the code of the first `n` of `exprs` calls `hook`.
pub open spec fn hook_uses_all(exprs: Seq<TypedExprView>, n: nat, hook: BuildIn) -> nat
    decreases exprs_size(exprs), n,
{
    if n == 0 || n > exprs.len() {
        0
    } else {
        proof {
            lemma_exprs_size_bounds(exprs, n - 1);
        }
        hook_uses_all(exprs, (n - 1) as nat, hook) + hook_uses(exprs[n - 1], hook)
    }
}

/// An emitted instruction adds one to the calls of `symbol` where it is
/// such a call, else nothing.
pub proof fn lemma_count_emit(b: BuilderView, instr: InstrView, symbol: Seq<char>)
    ensures
        count_calls(b.emit(instr).instrs, symbol) == count_calls(b.instrs, symbol) + one_if(
            is_call_of(instr, symbol),
        ),
{
    assert(b.emit(instr).instrs.drop_last() =~= b.instrs);
}

/// A call adds one to the calls of a hook where it is a call of the
/// hook, else nothing: no built-in that is put in place calls a hook.
pub proof fn lemma_call_code_count(
    cx: CodegenContextView,
    b: BuilderView,
    func_id: Seq<char>,
    params: Seq<Value>,
    sp: Value,
    hook: BuildIn,
)
    requires
        is_hook(hook),
        call_code(cx, b, func_id, params, sp) is Ok,
    ensures
        count_calls(call_code(cx, b, func_id, params, sp)->Ok_0.0.instrs, hook.name())
            == count_calls(b.instrs, hook.name()) + one_if(func_id == hook.name()),
{
    let symbol = hook.name();
    match call_target(cx, func_id) {
        Err(e) => {},
        Ok(Some((declared, returns_void))) => {
            lemma_count_emit(b, call_instr(func_id, declared, returns_void, params, sp), symbol);
        },
        Ok(None) => {
            let build_in = BuildIn::named(func_id)->0;
            if func_id == symbol {
                lemma_names_distinct(build_in, hook);
            }
            let kind = build_in.inline()->0;
            lemma_names_differ(BuildIn::printf, hook);
            match kind {
                Inline::Print(None) => {
                    let (declared, returns_void) = call_target(cx, "printf"@)->Ok_0->0;
                    lemma_count_emit(
                        b,
                        call_instr("printf"@, declared, returns_void, params, sp),
                        symbol,
                    );
                },
                Inline::Print(Some(format)) => {
                    let (declared, returns_void) = call_target(cx, "printf"@)->Ok_0->0;
                    let text = b.emit(InstrView::GlobalString { text: format@, name: ".str"@ });
                    lemma_count_emit(
                        b,
                        InstrView::GlobalString { text: format@, name: ".str"@ },
                        symbol,
                    );
                    lemma_count_emit(
                        text,
                        call_instr(
                            "printf"@,
                            declared,
                            returns_void,
                            seq![b.next_value()] + params,
                            sp,
                        ),
                        symbol,
                    );
                },
                Inline::CharAt => {
                    let address = InstrView::ElementPtr {
                        ptr: params[0],
                        indices: seq![params[1]],
                        name: "char_at_ptr"@,
                    };
                    lemma_count_emit(b, address, symbol);
                    lemma_count_emit(
                        b.emit(address),
                        InstrView::Load { ptr: b.next_value(), name: "char_at"@ },
                        symbol,
                    );
                },
                Inline::Compare(predicate, name) => {
                    lemma_count_emit(
                        b,
                        InstrView::Compare {
                            predicate,
                            lhs: params[0],
                            rhs: params[1],
                            name: name@,
                        },
                        symbol,
                    );
                },
                Inline::Arith(op, name) => {
                    lemma_count_emit(
                        b,
                        InstrView::Binary { op, lhs: params[0], rhs: params[1], name: name@ },
                        symbol,
                    );
                },
                Inline::Unary(op, name) => {
                    lemma_count_emit(
                        b,
                        InstrView::Unary { op, value: params[0], name: name@ },
                        symbol,
                    );
                },
            }
        },
    }
}

/// Taking a slot of the allocation frame calls no hook.
pub proof fn lemma_frame_slot_count(
    cx: CodegenContextView,
    b: BuilderView,
    sp: Value,
    name: Seq<char>,
    ty: Seq<char>,
    hook: BuildIn,
)
    requires
        is_hook(hook),
        frame_slot_code(cx, b, sp, name, ty) is Ok,
    ensures
        count_calls(frame_slot_code(cx, b, sp, name, ty)->Ok_0.0.instrs, hook.name())
            == count_calls(b.instrs, hook.name()),
{
    lemma_names_differ(BuildIn::stack_alloc, hook);
    lemma_call_code_count(cx, b, "stack_alloc"@, seq![sp], sp, hook);
    let (called, new_sp) = call_code(cx, b, "stack_alloc"@, seq![sp], sp)->Ok_0;
    let t = ir_type(cx.structs, ty)->Ok_0;
    lemma_count_emit(
        called,
        InstrView::BitCast { value: new_sp, ty: IrTypeView::Pointer(Box::new(t)), name },
        hook.name(),
    );
}

/// Making room for a variable calls no hook.
pub proof fn lemma_slot_count(
    cx: CodegenContextView,
    b: BuilderView,
    sp: Value,
    name: Seq<char>,
    ty: Seq<char>,
    hook: BuildIn,
)
    requires
        is_hook(hook),
        slot_code(cx, b, sp, name, ty) is Ok,
    ensures
        count_calls(slot_code(cx, b, sp, name, ty)->Ok_0.0.instrs, hook.name()) == count_calls(
            b.instrs,
            hook.name(),
        ),
{
    if is_user_type(ty) {
        lemma_frame_slot_count(cx, b, sp, name, ty, hook);
    } else {
        lemma_count_emit(
            b,
            InstrView::Alloca { ty: ir_type(cx.structs, ty)->Ok_0, name },
            hook.name(),
        );
    }
}

/// Under the reference-counted strategy the code that takes a reference
/// calls the hook for it once, and the other hook not at all; likewise
/// the code that gives a reference up.
pub proof fn lemma_pointer_hook_count(
    cx: CodegenContextView,
    b: BuilderView,
    called: BuildIn,
    ptr: Value,
    sp: Value,
    hook: BuildIn,
)
    requires
        is_hook(hook),
        pointer_hook(cx, b, called.name(), ptr, sp) is Ok,
    ensures
        count_calls(pointer_hook(cx, b, called.name(), ptr, sp)->Ok_0.instrs, hook.name())
            == count_calls(b.instrs, hook.name()) + one_if(called == hook),
{
    let cast = InstrView::BitCast {
        value: ptr,
        ty: IrTypeView::Pointer(Box::new(IrTypeView::Int(8))),
        name: "arc_count"@,
    };
    lemma_count_emit(b, cast, hook.name());
    lemma_call_code_count(
        cx,
        b.emit(cast),
        called.name(),
        seq![b.next_value(), sp],
        Value::Absent,
        hook,
    );
    if called.name() == hook.name() {
        lemma_names_distinct(called, hook);
    }
}

/// Bringing the computed arguments back calls no hook.
pub proof fn lemma_loads_count(b: BuilderView, slots: Seq<ParamSlot>, n: nat, symbol: Seq<char>)
    ensures
        count_calls(loads_code(b, slots, n).0.instrs, symbol) == count_calls(b.instrs, symbol),
    decreases n,
{
    if !(n == 0 || n > slots.len()) {
        lemma_loads_count(b, slots, (n - 1) as nat, symbol);
        let (before, loaded) = loads_code(b, slots, (n - 1) as nat);
        match slots[n - 1] {
            ParamSlot::Direct(v) => {},
            ParamSlot::Spilled(slot) => {
                lemma_count_emit(
                    before,
                    InstrView::Load { ptr: slot, name: param_name((n - 1) as nat) },
                    symbol,
                );
            },
        }
    }
}

/// Setting the pointer fields to null calls no hook.
pub proof fn lemma_nulls_count(
    b: BuilderView,
    ptr: Value,
    slots: Seq<u64>,
    n: nat,
    symbol: Seq<char>,
)
    ensures
        count_calls(nulls_code(b, ptr, slots, n).instrs, symbol) == count_calls(b.instrs, symbol),
    decreases n,
{
    if !(n == 0 || n > slots.len()) {
        lemma_nulls_count(b, ptr, slots, (n - 1) as nat, symbol);
        let before = nulls_code(b, ptr, slots, (n - 1) as nat);
        let address = field_address(ptr, slots[n - 1], "field_ptr"@);
        lemma_count_emit(before, address, symbol);
        lemma_count_emit(
            before.emit(address),
            InstrView::StoreNull { ptr: before.next_value() },
            symbol,
        );
    }
}

/// Storing the field values calls no hook.
pub proof fn lemma_stores_count(
    b: BuilderView,
    ptr: Value,
    values: Seq<Value>,
    slots: Seq<u64>,
    n: nat,
    symbol: Seq<char>,
)
    ensures
        count_calls(stores_code(b, ptr, values, slots, n).instrs, symbol) == count_calls(
            b.instrs,
            symbol,
        ),
    decreases n,
{
    if !(n == 0 || n > slots.len() || n > values.len()) {
        lemma_stores_count(b, ptr, values, slots, (n - 1) as nat, symbol);
        let before = stores_code(b, ptr, values, slots, (n - 1) as nat);
        let address = field_address(ptr, slots[n - 1], "field_ptr"@);
        lemma_count_emit(before, address, symbol);
        lemma_count_emit(
            before.emit(address),
            InstrView::Store { value: values[n - 1], ptr: before.next_value() },
            symbol,
        );
    }
}

/// Under the reference-counted strategy, taking a reference where it is
/// wanted calls the hook for it once.
proof fn lemma_access_count(
    cx: CodegenContextView,
    b: BuilderView,
    wanted: bool,
    ptr: Value,
    sp: Value,
    hook: BuildIn,
)
    requires
        is_hook(hook),
        only_if(wanted, ARC::access_code(cx, b, ptr, sp), b) is Ok,
    ensures
        count_calls(
            only_if(wanted, ARC::access_code(cx, b, ptr, sp), b)->Ok_0.instrs,
            hook.name(),
        ) == count_calls(b.instrs, hook.name()) + one_if(
            wanted && hook == BuildIn::arc_ptr_access,
        ),
{
    if wanted {
        lemma_pointer_hook_count(cx, b, BuildIn::arc_ptr_access, ptr, sp, hook);
    }
}

/// Under the reference-counted strategy, giving a reference up where it
/// is wanted calls the hook for it once.
proof fn lemma_drop_count(
    cx: CodegenContextView,
    b: BuilderView,
    wanted: bool,
    ptr: Value,
    sp: Value,
    hook: BuildIn,
)
    requires
        is_hook(hook),
        only_if(wanted, ARC::drop_code(cx, b, ptr, sp), b) is Ok,
    ensures
        count_calls(
            only_if(wanted, ARC::drop_code(cx, b, ptr, sp), b)->Ok_0.instrs,
            hook.name(),
        ) == count_calls(b.instrs, hook.name()) + one_if(wanted && hook == BuildIn::arc_drop_ptr),
{
    if wanted {
        lemma_pointer_hook_count(cx, b, BuildIn::arc_drop_ptr, ptr, sp, hook);
    }
}

/// The bookkeeping of references is exact: under the reference-counted
/// strategy the code of an expression calls the hook that takes a
/// reference once for every read of a value on the heap, and the hook
/// that gives one up once for every reference that ends, no more and no
/// less, as `hook_uses` counts them.
pub proof fn lemma_lower_count(
    cx: CodegenContextView,
    b: BuilderView,
    vars: Slots,
    sp: Value,
    e: TypedExprView,
    hook: BuildIn,
)
    requires
        is_hook(hook),
        lower::<ARC>(cx, b, vars, sp, e) is Ok,
    ensures
        count_calls(lower::<ARC>(cx, b, vars, sp, e)->Ok_0.0.instrs, hook.name()) == count_calls(
            b.instrs,
            hook.name(),
        ) + hook_uses(e, hook),
    decreases expr_size(e), 0nat, 0nat,
{
    let symbol = hook.name();
    match e.expr {
        BinExprView::Const(c) => {
            match c {
                crate::module::ConstView::Str(text) => {
                    lemma_count_emit(b, InstrView::GlobalString { text, name: ".str"@ }, symbol);
                },
                _ => {},
            }
        },
        BinExprView::FuncCall(func_id, params) => {
            lemma_params_count(cx, b, vars, sp, params, params.len(), hook);
            let (computed, slots, new_sp) = params_code::<ARC>(
                cx,
                b,
                vars,
                sp,
                params,
                params.len(),
            )->Ok_0;
            lemma_loads_count(computed, slots, slots.len(), symbol);
            let (loaded, args) = loads_code(computed, slots, slots.len());
            lemma_call_code_count(cx, loaded, func_id, args, new_sp, hook);
        },
        BinExprView::GetTypeCaseField(obj, case, index) => {
            lemma_lower_count(cx, b, vars, sp, *obj, hook);
            let (after_obj, obj_ptr) = lower::<ARC>(cx, b, vars, sp, *obj)->Ok_0;
            let slots = case_layout(
                cx.binary.types,
                ARC::header().len(),
                obj.expr_type,
                case,
            )->Ok_0.1;
            let at = field_address(obj_ptr, slots[index as int], "case_field_ptr"@);
            lemma_count_emit(after_obj, at, symbol);
            let address = after_obj.emit(at);
            let load = InstrView::Load { ptr: after_obj.next_value(), name: "case_field"@ };
            lemma_count_emit(address, load, symbol);
            let loaded = address.emit(load);
            let field = address.next_value();
            lemma_access_count(cx, loaded, is_user_type(e.expr_type), field, sp, hook);
            let accessed = only_if(
                is_user_type(e.expr_type),
                ARC::access_code(cx, loaded, field, sp),
                loaded,
            )->Ok_0;
            lemma_drop_count(cx, accessed, true, obj_ptr, sp, hook);
        },
        BinExprView::If(cond, then_expr, else_expr) => {
            let ret_type = ir_type(cx.structs, e.expr_type)->Ok_0;
            lemma_if_count(cx, b, vars, sp, *cond, *then_expr, *else_expr, ret_type, hook);
        },
        BinExprView::IsCase(obj, case) => {
            lemma_lower_count(cx, b, vars, sp, *obj, hook);
            let (after_obj, obj_ptr) = lower::<ARC>(cx, b, vars, sp, *obj)->Ok_0;
            let tag = case_layout(
                cx.binary.types,
                ARC::header().len(),
                obj.expr_type,
                case,
            )->Ok_0.0;
            let at = field_address(obj_ptr, ARC::header().len() as u64, "case_id"@);
            lemma_count_emit(after_obj, at, symbol);
            let address = after_obj.emit(at);
            let load = InstrView::Load { ptr: after_obj.next_value(), name: "case_id"@ };
            lemma_count_emit(address, load, symbol);
            let loaded = address.emit(load);
            let compare = InstrView::Compare {
                predicate: IntPredicate::Equal,
                lhs: Value::ConstInt { bits: 32, value: tag },
                rhs: address.next_value(),
                name: "same_case"@,
            };
            lemma_count_emit(loaded, compare, symbol);
            lemma_drop_count(cx, loaded.emit(compare), true, obj_ptr, sp, hook);
        },
        BinExprView::Let(name, definition, body) => {
            lemma_let_count(cx, b, vars, sp, name, *definition, *body, hook);
        },
        BinExprView::Sequence(first, second) => {
            lemma_lower_count(cx, b, vars, sp, *first, hook);
            let (after_first, discarded) = lower::<ARC>(cx, b, vars, sp, *first)->Ok_0;
            lemma_drop_count(
                cx,
                after_first,
                is_user_type(first.expr_type),
                discarded,
                sp,
                hook,
            );
            let dropped = only_if(
                is_user_type(first.expr_type),
                ARC::drop_code(cx, after_first, discarded, sp),
                after_first,
            )->Ok_0;
            lemma_lower_count(cx, dropped, vars, sp, *second, hook);
        },
        BinExprView::TypeCase(ty, case, fields) => {
            lemma_construction_count(cx, b, vars, sp, ty, case, fields, hook);
        },
        BinExprView::Var(name) => {
            let slot = lookup_last(vars, name)->0;
            let load = InstrView::Load { ptr: slot, name };
            lemma_count_emit(b, load, symbol);
            lemma_access_count(
                cx,
                b.emit(load),
                is_user_type(e.expr_type),
                b.next_value(),
                sp,
                hook,
            );
        },
    }
}

/// The hooks that the code of a conditional calls are those of its three
/// parts.
pub proof fn lemma_if_count(
    cx: CodegenContextView,
    b: BuilderView,
    vars: Slots,
    sp: Value,
    cond: TypedExprView,
    then_expr: TypedExprView,
    else_expr: TypedExprView,
    ret_type: IrTypeView,
    hook: BuildIn,
)
    requires
        is_hook(hook),
        if_code::<ARC>(cx, b, vars, sp, cond, then_expr, else_expr, ret_type) is Ok,
    ensures
        count_calls(
            if_code::<ARC>(cx, b, vars, sp, cond, then_expr, else_expr, ret_type)->Ok_0.0.instrs,
            hook.name(),
        ) == count_calls(b.instrs, hook.name()) + hook_uses(cond, hook) + hook_uses(
            then_expr,
            hook,
        ) + hook_uses(else_expr, hook),
    decreases expr_size(cond) + expr_size(then_expr) + expr_size(else_expr), 1nat, 0nat,
{
    lemma_expr_size_positive(cond);
    lemma_expr_size_positive(then_expr);
    lemma_expr_size_positive(else_expr);
    let symbol = hook.name();
    let then_block = b.blocks.len() as usize;
    let else_block = (b.blocks.len() + 1) as usize;
    let join_block = (b.blocks.len() + 2) as usize;
    let blocks = b.append_block("then"@).append_block("else"@).append_block("continuation"@);
    lemma_lower_count(cx, blocks, vars, sp, cond, hook);
    let (after_cond, condition) = lower::<ARC>(cx, blocks, vars, sp, cond)->Ok_0;
    let branch = InstrView::CondBr { cond: condition, then_block, else_block };
    lemma_count_emit(after_cond, branch, symbol);
    let branched = after_cond.emit(branch).position_at_end(then_block);
    lemma_lower_count(cx, branched, vars, sp, then_expr, hook);
    let (after_then, then_result) = lower::<ARC>(cx, branched, vars, sp, then_expr)->Ok_0;
    let leave_then = InstrView::Br {
        block: if then_expr.expr_type != EXIT_TYPE@ {
            join_block
        } else {
            then_block
        },
    };
    lemma_count_emit(after_then, leave_then, symbol);
    let left_then = after_then.emit(leave_then).position_at_end(else_block);
    lemma_lower_count(cx, left_then, vars, sp, else_expr, hook);
    let (after_else, else_result) = lower::<ARC>(cx, left_then, vars, sp, else_expr)->Ok_0;
    let leave_else = InstrView::Br {
        block: if else_expr.expr_type != EXIT_TYPE@ {
            join_block
        } else {
            else_block
        },
    };
    lemma_count_emit(after_else, leave_else, symbol);
    let left_else = after_else.emit(leave_else).position_at_end(join_block);
    lemma_count_emit(
        left_else,
        InstrView::Phi {
            ty: ret_type,
            incoming: seq![
                (then_result, after_then.current),
                (else_result, after_else.current),
            ],
            name: "res"@,
        },
        symbol,
    );
}

/// A `let` gives the reference of what it binds up exactly once, after
/// its body, where the value is on the heap; beyond that its code calls
/// the hooks that the definition and the body call.
pub proof fn lemma_let_count(
    cx: CodegenContextView,
    b: BuilderView,
    vars: Slots,
    sp: Value,
    name: Seq<char>,
    definition: TypedExprView,
    body: TypedExprView,
    hook: BuildIn,
)
    requires
        is_hook(hook),
        let_code::<ARC>(cx, b, vars, sp, name, definition, body) is Ok,
    ensures
        count_calls(
            let_code::<ARC>(cx, b, vars, sp, name, definition, body)->Ok_0.0.instrs,
            hook.name(),
        ) == count_calls(b.instrs, hook.name()) + hook_uses(definition, hook) + hook_uses(
            body,
            hook,
        ) + one_if(hook == BuildIn::arc_drop_ptr && is_user_type(definition.expr_type)),
    decreases expr_size(definition) + expr_size(body), 1nat, 0nat,
{
    lemma_expr_size_positive(definition);
    lemma_expr_size_positive(body);
    let symbol = hook.name();
    lemma_slot_count(cx, b, sp, name, definition.expr_type, hook);
    let (with_slot, variable, new_sp) = slot_code(cx, b, sp, name, definition.expr_type)->Ok_0;
    lemma_lower_count(cx, with_slot, vars, sp, definition, hook);
    let (defined, value) = lower::<ARC>(cx, with_slot, vars, sp, definition)->Ok_0;
    let store = InstrView::Store { value, ptr: variable };
    lemma_count_emit(defined, store, symbol);
    lemma_lower_count(cx, defined.emit(store), vars.push((name, variable)), new_sp, body, hook);
    let (after_body, result) = lower::<ARC>(
        cx,
        defined.emit(store),
        vars.push((name, variable)),
        new_sp,
        body,
    )->Ok_0;
    let load = InstrView::Load { ptr: variable, name };
    lemma_count_emit(after_body, load, symbol);
    if is_user_type(definition.expr_type) {
        lemma_drop_count(cx, after_body.emit(load), true, after_body.next_value(), sp, hook);
    }
}

/// Building an object calls the hooks that the code of its field values
/// calls, and no other.
pub proof fn lemma_construction_count(
    cx: CodegenContextView,
    b: BuilderView,
    vars: Slots,
    sp: Value,
    ty: Seq<char>,
    case: Seq<char>,
    fields: Seq<TypedExprView>,
    hook: BuildIn,
)
    requires
        is_hook(hook),
        construction_code::<ARC>(cx, b, vars, sp, ty, case, fields) is Ok,
    ensures
        count_calls(
            construction_code::<ARC>(cx, b, vars, sp, ty, case, fields)->Ok_0.0.instrs,
            hook.name(),
        ) == count_calls(b.instrs, hook.name()) + hook_uses_all(fields, fields.len(), hook),
    decreases exprs_size(fields), 2nat, 0nat,
{
    let symbol = hook.name();
    lemma_params_count(cx, b, vars, sp, fields, fields.len(), hook);
    let (computed, slots, new_sp) = params_code::<ARC>(
        cx,
        b,
        vars,
        sp,
        fields,
        fields.len(),
    )->Ok_0;
    let object_type = ir_type(cx.structs, ty)->Ok_0;
    let size_of = InstrView::SizeOf { aggregate: ty };
    lemma_count_emit(computed, size_of, symbol);
    let sized = computed.emit(size_of);
    let size = computed.next_value();
    lemma_names_differ(BuildIn::type_alloc, hook);
    lemma_call_code_count(
        cx,
        sized,
        BuildIn::type_alloc.name(),
        seq![size, new_sp],
        new_sp,
        hook,
    );
    let (allocated, raw) = ARC::allocation_code(cx, sized, size, new_sp)->Ok_0;
    let bit_cast = InstrView::BitCast { value: raw, ty: object_type, name: ty + "*"@ };
    lemma_count_emit(allocated, bit_cast, symbol);
    let cast = allocated.emit(bit_cast);
    let heap_ptr = allocated.next_value();
    lemma_loads_count(cast, slots, slots.len(), symbol);
    let (loaded, values) = loads_code(cast, slots, slots.len());
    let header_at = header_address(heap_ptr, "arc_header"@);
    lemma_count_emit(loaded, header_at, symbol);
    lemma_count_emit(
        loaded.emit(header_at),
        InstrView::Store {
            value: Value::ConstInt { bits: 32, value: 1 },
            ptr: loaded.next_value(),
        },
        symbol,
    );
    let with_header = ARC::header_code(loaded, heap_ptr, size);
    let (tag, field_slots, pointer_slots) = case_layout(
        cx.binary.types,
        ARC::header().len(),
        ty,
        case,
    )->Ok_0;
    let tag_at = field_address(heap_ptr, ARC::header().len() as u64, "case_id"@);
    lemma_count_emit(with_header, tag_at, symbol);
    let store_tag = InstrView::Store {
        value: Value::ConstInt { bits: 32, value: tag },
        ptr: with_header.next_value(),
    };
    lemma_count_emit(with_header.emit(tag_at), store_tag, symbol);
    let tagged = with_header.emit(tag_at).emit(store_tag);
    lemma_nulls_count(tagged, heap_ptr, pointer_slots, pointer_slots.len(), symbol);
    let cleared = nulls_code(tagged, heap_ptr, pointer_slots, pointer_slots.len());
    lemma_stores_count(
        cleared,
        heap_ptr,
        values,
        field_slots,
        least(values.len(), field_slots.len()),
        symbol,
    );
}

/// Computing arguments calls the hooks that the code of the arguments
/// calls, and no other.
pub proof fn lemma_params_count(
    cx: CodegenContextView,
    b: BuilderView,
    vars: Slots,
    sp: Value,
    params: Seq<TypedExprView>,
    n: nat,
    hook: BuildIn,
)
    requires
        is_hook(hook),
        params_code::<ARC>(cx, b, vars, sp, params, n) is Ok,
    ensures
        count_calls(params_code::<ARC>(cx, b, vars, sp, params, n)->Ok_0.0.instrs, hook.name())
            == count_calls(b.instrs, hook.name()) + hook_uses_all(params, n, hook),
    decreases exprs_size(params), 1nat, n,
{
    if !(n == 0 || n > params.len()) {
        lemma_exprs_size_bounds(params, n - 1);
        lemma_params_count(cx, b, vars, sp, params, (n - 1) as nat, hook);
        let (before, slots, frame) = params_code::<ARC>(
            cx,
            b,
            vars,
            sp,
            params,
            (n - 1) as nat,
        )->Ok_0;
        lemma_lower_count(cx, before, vars, frame, params[n - 1], hook);
        let (computed, value) = lower::<ARC>(cx, before, vars, frame, params[n - 1])->Ok_0;
        if is_user_type(params[n - 1].expr_type) {
            lemma_frame_slot_count(
                cx,
                computed,
                frame,
                param_name((n - 1) as nat),
                params[n - 1].expr_type,
                hook,
            );
            let (with_slot, slot, new_frame) = frame_slot_code(
                cx,
                computed,
                frame,
                param_name((n - 1) as nat),
                params[n - 1].expr_type,
            )->Ok_0;
            lemma_count_emit(with_slot, InstrView::Store { value, ptr: slot }, hook.name());
        }
    }
}

/// A value on the heap that is bound, read, and given up: the code of
/// `let name = definition in body` takes as many references as the
/// definition and the body read values on the heap, so one for every read
/// of the variable, and gives up one reference more than the definition
/// and the body give up: that of the binding, exactly once.
pub proof fn lemma_binding_hooks(
    cx: CodegenContextView,
    b: BuilderView,
    vars: Slots,
    sp: Value,
    name: Seq<char>,
    definition: TypedExprView,
    body: TypedExprView,
)
    requires
        is_user_type(definition.expr_type),
        let_code::<ARC>(cx, b, vars, sp, name, definition, body) is Ok,
    ensures
        ({
            let after = let_code::<ARC>(cx, b, vars, sp, name, definition, body)->Ok_0.0;
            let taken = BuildIn::arc_ptr_access;
            let given = BuildIn::arc_drop_ptr;
            &&& count_calls(after.instrs, taken.name()) == count_calls(b.instrs, taken.name())
                + hook_uses(definition, taken) + hook_uses(body, taken)
            &&& count_calls(after.instrs, given.name()) == count_calls(b.instrs, given.name())
                + hook_uses(definition, given) + hook_uses(body, given) + 1
        }),
{
    lemma_let_count(cx, b, vars, sp, name, definition, body, BuildIn::arc_ptr_access);
    lemma_let_count(cx, b, vars, sp, name, definition, body, BuildIn::arc_drop_ptr);
}

} // verus!
