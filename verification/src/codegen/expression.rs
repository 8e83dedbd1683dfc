//! The code of an expression.
use crate::binary::{
    expr_size, exprs_size, lemma_expr_size_positive, lemma_exprs_size_bounds, BinExpr,
    BinExprView, TypedExpr, TypedExprView,
};
use crate::codegen::function::{call_code, create_func_call};
use crate::codegen::garbage_collection::{zero32, GC};
use crate::codegen::ir::{
    Builder, BuilderView, CodegenError, CodegenErrorView, emitted, Instr, InstrView, IntPredicate,
    IrType, IrTypeView, Value,
};
use crate::codegen::{CodegenContext, CodegenContextView};
use crate::lookup::{lookup, lookup_last};
use crate::module::{Const, ConstView};
use crate::text::{decimal, str_eq, to_decimal};
use crate::types::{
    case_layout, get_case_id_case_indices_pointer_indices, get_struct_size, ir_type,
    is_user_type, is_user_type_name, pointer_to, type_to_llvm_type, EXIT_TYPE, VOID_TYPE,
};
use vstd::prelude::*;
use vstd::string::StringExecFns;

verus! {

/// The variables in reach, each with the slot that holds its value, the
/// innermost last.
pub type Slots = Seq<(Seq<char>, Value)>;

/// An argument that has been computed: the value itself, or the slot of
/// the allocation frame that it was put in because it is on the heap.
#[derive(Clone, Copy, Debug, PartialEq, Eq, Structural)]
pub enum ParamSlot {
    Direct(Value),
    Spilled(Value),
}

/// The 32 bits of an integer, as the unsigned number they are.
pub open spec fn bits_of(n: i32) -> u64 {
    if n >= 0 {
        n as u64
    } else {
        (n + 0x1_0000_0000) as u64
    }
}

/// The code of a literal: an integer constant of the width of its type; a
/// global for a text; no value for `void`.
pub open spec fn const_code(b: BuilderView, c: ConstView) -> (BuilderView, Value) {
    match c {
        ConstView::Bool(v) => (
            b,
            Value::ConstInt {
                bits: 1,
                value: if v {
                    1
                } else {
                    0
                },
            },
        ),
        ConstView::U8(n) => (b, Value::ConstInt { bits: 8, value: n as u64 }),
        ConstView::I32(n) => (b, Value::ConstInt { bits: 32, value: bits_of(n) }),
        ConstView::Str(text) => (
            b.emit(InstrView::GlobalString { text, name: ".str"@ }),
            b.next_value(),
        ),
        ConstView::Void => (b, Value::Absent),
    }
}

/// The address of the slot `slot` of the object at `ptr`.
pub open spec fn field_address(ptr: Value, slot: u64, name: Seq<char>) -> InstrView {
    InstrView::ElementPtr {
        ptr,
        indices: seq![zero32(), Value::ConstInt { bits: 32, value: slot }],
        name,
    }
}

/// The code that takes a new slot of the allocation frame `sp` for a
/// value of the type `ty`: the slot and the frame after it.
pub open spec fn frame_slot_code(
    cx: CodegenContextView,
    b: BuilderView,
    sp: Value,
    name: Seq<char>,
    ty: Seq<char>,
) -> Result<(BuilderView, Value, Value), CodegenErrorView> {
    match call_code(cx, b, "stack_alloc"@, seq![sp], sp) {
        Err(e) => Err(e),
        Ok((called, new_sp)) => match ir_type(cx.structs, ty) {
            Err(e) => Err(e),
            Ok(t) => Ok(
                (
                    called.emit(
                        InstrView::BitCast {
                            value: new_sp,
                            ty: IrTypeView::Pointer(Box::new(t)),
                            name,
                        },
                    ),
                    called.next_value(),
                    new_sp,
                ),
            ),
        },
    }
}

/// The code that makes room for a variable of the type `ty`: a slot of
/// the allocation frame where the type is on the heap, so that the value
/// outlives every allocation, else a slot of the machine stack. Returns
/// the slot and the frame to go on with.
pub open spec fn slot_code(
    cx: CodegenContextView,
    b: BuilderView,
    sp: Value,
    name: Seq<char>,
    ty: Seq<char>,
) -> Result<(BuilderView, Value, Value), CodegenErrorView> {
    if is_user_type(ty) {
        frame_slot_code(cx, b, sp, name, ty)
    } else {
        match ir_type(cx.structs, ty) {
            Err(e) => Err(e),
            Ok(t) => Ok((b.emit(InstrView::Alloca { ty: t, name }), b.next_value(), sp)),
        }
    }
}

/// The name of the slot of argument number `i`.
pub open spec fn param_name(i: nat) -> Seq<char> {
    "$param$"@ + decimal(i)
}

/// The code that brings the first `n` computed arguments back: a load for
/// each that was put in the frame.
pub open spec fn loads_code(b: BuilderView, slots: Seq<ParamSlot>, n: nat) -> (
    BuilderView,
    Seq<Value>,
)
    decreases n,
{
    if n == 0 || n > slots.len() {
        (b, seq![])
    } else {
        let (before, loaded) = loads_code(b, slots, (n - 1) as nat);
        match slots[n - 1] {
            ParamSlot::Direct(v) => (before, loaded.push(v)),
            ParamSlot::Spilled(slot) => (
                before.emit(InstrView::Load { ptr: slot, name: param_name((n - 1) as nat) }),
                loaded.push(before.next_value()),
            ),
        }
    }
}

/// The code that sets the first `n` of the pointer slots `slots` of the
/// object at `ptr` to null.
pub open spec fn nulls_code(b: BuilderView, ptr: Value, slots: Seq<u64>, n: nat) -> BuilderView
    decreases n,
{
    if n == 0 || n > slots.len() {
        b
    } else {
        let before = nulls_code(b, ptr, slots, (n - 1) as nat);
        before.emit(field_address(ptr, slots[n - 1], "field_ptr"@)).emit(
            InstrView::StoreNull { ptr: before.next_value() },
        )
    }
}

/// The code that stores the first `n` of `values` to the slots `slots` of
/// the object at `ptr`, each to the slot of its position.
pub open spec fn stores_code(
    b: BuilderView,
    ptr: Value,
    values: Seq<Value>,
    slots: Seq<u64>,
    n: nat,
) -> BuilderView
    decreases n,
{
    if n == 0 || n > slots.len() || n > values.len() {
        b
    } else {
        let before = stores_code(b, ptr, values, slots, (n - 1) as nat);
        before.emit(field_address(ptr, slots[n - 1], "field_ptr"@)).emit(
            InstrView::Store { value: values[n - 1], ptr: before.next_value() },
        )
    }
}

/// What the end of the code that builds an object writes: from the
/// builder `with_header` on, the tag `tag` goes to the slot after the
/// header, every pointer slot is cleared, and the values go to the slots
/// of the fields.
pub open spec fn object_writes(
    with_header: BuilderView,
    heap_ptr: Value,
    header: nat,
    tag: u64,
    values: Seq<Value>,
    field_slots: Seq<u64>,
    pointer_slots: Seq<u64>,
) -> BuilderView {
    let tagged = with_header.emit(field_address(heap_ptr, header as u64, "case_id"@)).emit(
        InstrView::Store {
            value: Value::ConstInt { bits: 32, value: tag },
            ptr: with_header.next_value(),
        },
    );
    let cleared = nulls_code(tagged, heap_ptr, pointer_slots, pointer_slots.len());
    stores_code(cleared, heap_ptr, values, field_slots, least(values.len(), field_slots.len()))
}

/// The smaller of two numbers.
pub open spec fn least(a: nat, b: nat) -> nat {
    if a <= b {
        a
    } else {
        b
    }
}

/// What a conditional leaves at its join: nothing where no branch leaves
/// a value; the value of the one branch that returns; else the merge of
/// both.
pub open spec fn join_code(
    b: BuilderView,
    ret_type: IrTypeView,
    then_type: Seq<char>,
    else_type: Seq<char>,
    then_result: Value,
    then_end: usize,
    else_result: Value,
    else_end: usize,
) -> (BuilderView, Value) {
    if (then_type == VOID_TYPE@ || then_type == EXIT_TYPE@) && (else_type == VOID_TYPE@
        || else_type == EXIT_TYPE@) {
        (b, Value::Absent)
    } else if then_type == EXIT_TYPE@ {
        (b, else_result)
    } else if else_type == EXIT_TYPE@ {
        (b, then_result)
    } else {
        (
            b.emit(
                InstrView::Phi {
                    ty: ret_type,
                    incoming: seq![(then_result, then_end), (else_result, else_end)],
                    name: "res"@,
                },
            ),
            b.next_value(),
        )
    }
}

/// The code that `hook` emits where `wanted` holds, else none.
pub open spec fn only_if(wanted: bool, hook: Result<BuilderView, CodegenErrorView>, b: BuilderView) -> Result<
    BuilderView,
    CodegenErrorView,
> {
    if wanted {
        hook
    } else {
        Ok(b)
    }
}

/// The code of an expression under the strategy `Gc`: the state of the
/// builder after the code is emitted to `b`, and the handle on the value
/// of the expression. `vars` holds the slot of every variable in reach
/// and `sp` is the allocation frame in force.
pub open spec fn lower<Gc: GC>(
    cx: CodegenContextView,
    b: BuilderView,
    vars: Slots,
    sp: Value,
    e: TypedExprView,
) -> Result<(BuilderView, Value), CodegenErrorView>
    decreases expr_size(e), 0nat, 0nat,
{
    match e.expr {
        BinExprView::Const(c) => Ok(const_code(b, c)),
        // The arguments are computed from left to right, each on the heap
        // put aside in the frame; then all are brought back and passed.
        BinExprView::FuncCall(func_id, params) => match params_code::<Gc>(
            cx,
            b,
            vars,
            sp,
            params,
            params.len(),
        ) {
            Err(e) => Err(e),
            Ok((computed, slots, new_sp)) => {
                let (loaded, args) = loads_code(computed, slots, slots.len());
                call_code(cx, loaded, func_id, args, new_sp)
            },
        },
        // The field is loaded from its slot; the reference to it is taken
        // where it is on the heap; the reference to the object is given up.
        BinExprView::GetTypeCaseField(obj, case, index) => match lower::<Gc>(
            cx,
            b,
            vars,
            sp,
            *obj,
        ) {
            Err(e) => Err(e),
            Ok((after_obj, obj_ptr)) => match case_layout(
                cx.binary.types,
                Gc::header().len(),
                obj.expr_type,
                case,
            ) {
                Err(e) => Err(e),
                Ok((_, slots, _)) => if index >= slots.len() {
                    Err(CodegenErrorView::FieldNotFound { ty: obj.expr_type, case, index })
                } else {
                    let address = after_obj.emit(
                        field_address(obj_ptr, slots[index as int], "case_field_ptr"@),
                    );
                    let loaded = address.emit(
                        InstrView::Load { ptr: after_obj.next_value(), name: "case_field"@ },
                    );
                    let field = address.next_value();
                    match only_if(
                        is_user_type(e.expr_type),
                        Gc::access_code(cx, loaded, field, sp),
                        loaded,
                    ) {
                        Err(e) => Err(e),
                        Ok(accessed) => match Gc::drop_code(cx, accessed, obj_ptr, sp) {
                            Err(e) => Err(e),
                            Ok(dropped) => Ok((dropped, field)),
                        },
                    }
                },
            },
        },
        BinExprView::If(cond, then_expr, else_expr) => match ir_type(cx.structs, e.expr_type) {
            Err(e) => Err(e),
            Ok(ret_type) => if_code::<Gc>(cx, b, vars, sp, *cond, *then_expr, *else_expr, ret_type),
        },
        // The tag is loaded and compared with the tag of the case; the
        // reference to the object is given up.
        BinExprView::IsCase(obj, case) => match lower::<Gc>(cx, b, vars, sp, *obj) {
            Err(e) => Err(e),
            Ok((after_obj, obj_ptr)) => match case_layout(
                cx.binary.types,
                Gc::header().len(),
                obj.expr_type,
                case,
            ) {
                Err(e) => Err(e),
                Ok((tag, _, _)) => {
                    let address = after_obj.emit(
                        field_address(obj_ptr, Gc::header().len() as u64, "case_id"@),
                    );
                    let loaded = address.emit(
                        InstrView::Load { ptr: after_obj.next_value(), name: "case_id"@ },
                    );
                    let compared = loaded.emit(
                        InstrView::Compare {
                            predicate: IntPredicate::Equal,
                            lhs: Value::ConstInt { bits: 32, value: tag },
                            rhs: address.next_value(),
                            name: "same_case"@,
                        },
                    );
                    match Gc::drop_code(cx, compared, obj_ptr, sp) {
                        Err(e) => Err(e),
                        Ok(dropped) => Ok((dropped, loaded.next_value())),
                    }
                },
            },
        },
        BinExprView::Let(name, definition, body) => let_code::<Gc>(
            cx,
            b,
            vars,
            sp,
            name,
            *definition,
            *body,
        ),
        // The value of the first expression is not used: where it is on
        // the heap, its reference is given up at once.
        BinExprView::Sequence(first, second) => match lower::<Gc>(cx, b, vars, sp, *first) {
            Err(e) => Err(e),
            Ok((after_first, discarded)) => match only_if(
                is_user_type(first.expr_type),
                Gc::drop_code(cx, after_first, discarded, sp),
                after_first,
            ) {
                Err(e) => Err(e),
                Ok(dropped) => lower::<Gc>(cx, dropped, vars, sp, *second),
            },
        },
        BinExprView::TypeCase(ty, case, fields) => construction_code::<Gc>(
            cx,
            b,
            vars,
            sp,
            ty,
            case,
            fields,
        ),
        // The variable is loaded from its slot; where it is on the heap,
        // one more reference is taken.
        BinExprView::Var(name) => match lookup_last(vars, name) {
            None => Err(CodegenErrorView::VariableNotFound(name)),
            Some(slot) => match only_if(
                is_user_type(e.expr_type),
                Gc::access_code(
                    cx,
                    b.emit(InstrView::Load { ptr: slot, name }),
                    b.next_value(),
                    sp,
                ),
                b.emit(InstrView::Load { ptr: slot, name }),
            ) {
                Err(e) => Err(e),
                Ok(accessed) => Ok((accessed, b.next_value())),
            },
        },
    }
}

/// The code of a conditional whose value is of the target type
/// `ret_type`: three blocks, one per branch and the join. A branch that
/// never returns ends in a jump to itself and does not reach the join.
pub open spec fn if_code<Gc: GC>(
    cx: CodegenContextView,
    b: BuilderView,
    vars: Slots,
    sp: Value,
    cond: TypedExprView,
    then_expr: TypedExprView,
    else_expr: TypedExprView,
    ret_type: IrTypeView,
) -> Result<(BuilderView, Value), CodegenErrorView>
    decreases expr_size(cond) + expr_size(then_expr) + expr_size(else_expr), 1nat, 0nat,
{
    proof {
        lemma_expr_size_positive(cond);
        lemma_expr_size_positive(then_expr);
        lemma_expr_size_positive(else_expr);
    }
    let then_block = b.blocks.len() as usize;
    let else_block = (b.blocks.len() + 1) as usize;
    let join_block = (b.blocks.len() + 2) as usize;
    let blocks = b.append_block("then"@).append_block("else"@).append_block("continuation"@);
    match lower::<Gc>(cx, blocks, vars, sp, cond) {
        Err(e) => Err(e),
        Ok((after_cond, condition)) => {
            let branched = after_cond.emit(
                InstrView::CondBr { cond: condition, then_block, else_block },
            ).position_at_end(then_block);
            match lower::<Gc>(cx, branched, vars, sp, then_expr) {
                Err(e) => Err(e),
                Ok((after_then, then_result)) => {
                    let then_end = after_then.current;
                    let left_then = after_then.emit(
                        InstrView::Br {
                            block: if then_expr.expr_type != EXIT_TYPE@ {
                                join_block
                            } else {
                                then_block
                            },
                        },
                    ).position_at_end(else_block);
                    match lower::<Gc>(cx, left_then, vars, sp, else_expr) {
                        Err(e) => Err(e),
                        Ok((after_else, else_result)) => {
                            let else_end = after_else.current;
                            let left_else = after_else.emit(
                                InstrView::Br {
                                    block: if else_expr.expr_type != EXIT_TYPE@ {
                                        join_block
                                    } else {
                                        else_block
                                    },
                                },
                            ).position_at_end(join_block);
                            Ok(
                                join_code(
                                    left_else,
                                    ret_type,
                                    then_expr.expr_type,
                                    else_expr.expr_type,
                                    then_result,
                                    then_end,
                                    else_result,
                                    else_end,
                                ),
                            )
                        },
                    }
                },
            }
        },
    }
}

/// The code of `let name = definition in body`: the definition is stored
/// to a slot of its own; the body sees the variable; where the value is
/// on the heap, the reference that the variable held is given up after
/// the body, in the frame that was in force before the binding.
pub open spec fn let_code<Gc: GC>(
    cx: CodegenContextView,
    b: BuilderView,
    vars: Slots,
    sp: Value,
    name: Seq<char>,
    definition: TypedExprView,
    body: TypedExprView,
) -> Result<(BuilderView, Value), CodegenErrorView>
    decreases expr_size(definition) + expr_size(body), 1nat, 0nat,
{
    proof {
        lemma_expr_size_positive(definition);
        lemma_expr_size_positive(body);
    }
    match slot_code(cx, b, sp, name, definition.expr_type) {
        Err(e) => Err(e),
        Ok((with_slot, variable, new_sp)) => match lower::<Gc>(
            cx,
            with_slot,
            vars,
            sp,
            definition,
        ) {
            Err(e) => Err(e),
            Ok((defined, value)) => match lower::<Gc>(
                cx,
                defined.emit(InstrView::Store { value, ptr: variable }),
                vars.push((name, variable)),
                new_sp,
                body,
            ) {
                Err(e) => Err(e),
                Ok((after_body, result)) => match only_if(
                    is_user_type(definition.expr_type),
                    Gc::drop_code(
                        cx,
                        after_body.emit(InstrView::Load { ptr: variable, name }),
                        after_body.next_value(),
                        sp,
                    ),
                    after_body,
                ) {
                    Err(e) => Err(e),
                    Ok(dropped) => Ok((dropped, result)),
                },
            },
        },
    }
}

/// The code that builds an object of the case `case` of the type `ty`.
/// The field values are computed first. Then the object is allocated,
/// its header and its tag are written, every pointer field is set to
/// null, and the values are stored.
pub open spec fn construction_code<Gc: GC>(
    cx: CodegenContextView,
    b: BuilderView,
    vars: Slots,
    sp: Value,
    ty: Seq<char>,
    case: Seq<char>,
    fields: Seq<TypedExprView>,
) -> Result<(BuilderView, Value), CodegenErrorView>
    decreases exprs_size(fields), 2nat, 0nat,
{
    match params_code::<Gc>(cx, b, vars, sp, fields, fields.len()) {
        Err(e) => Err(e),
        Ok((computed, slots, new_sp)) => match ir_type(cx.structs, ty) {
            Err(e) => Err(e),
            Ok(object_type) => if lookup(cx.structs, ty) is None {
                Err(CodegenErrorView::StructNotFound(ty))
            } else {
                let sized = computed.emit(InstrView::SizeOf { aggregate: ty });
                let size = computed.next_value();
                match Gc::allocation_code(cx, sized, size, new_sp) {
                    Err(e) => Err(e),
                    Ok((allocated, raw)) => {
                        let cast = allocated.emit(
                            InstrView::BitCast { value: raw, ty: object_type, name: ty + "*"@ },
                        );
                        let heap_ptr = allocated.next_value();
                        let (loaded, values) = loads_code(cast, slots, slots.len());
                        let with_header = Gc::header_code(loaded, heap_ptr, size);
                        match case_layout(cx.binary.types, Gc::header().len(), ty, case) {
                            Err(e) => Err(e),
                            Ok((tag, field_slots, pointer_slots)) => Ok(
                                (
                                    object_writes(
                                        with_header,
                                        heap_ptr,
                                        Gc::header().len(),
                                        tag,
                                        values,
                                        field_slots,
                                        pointer_slots,
                                    ),
                                    heap_ptr,
                                ),
                            ),
                        }
                    },
                }
            },
        },
    }
}

/// The code that computes the first `n` of the arguments `params`, from
/// left to right. An argument on the heap is stored to a new slot of the
/// allocation frame, so that an allocation for a later argument cannot
/// lose it. Returns, for each argument, its value or its slot, and the
/// frame after the slots.
pub open spec fn params_code<Gc: GC>(
    cx: CodegenContextView,
    b: BuilderView,
    vars: Slots,
    sp: Value,
    params: Seq<TypedExprView>,
    n: nat,
) -> Result<(BuilderView, Seq<ParamSlot>, Value), CodegenErrorView>
    decreases exprs_size(params), 1nat, n,
{
    if n == 0 || n > params.len() {
        Ok((b, seq![], sp))
    } else {
        proof {
            lemma_exprs_size_bounds(params, n - 1);
        }
        match params_code::<Gc>(cx, b, vars, sp, params, (n - 1) as nat) {
            Err(e) => Err(e),
            Ok((before, slots, frame)) => match lower::<Gc>(cx, before, vars, frame, params[n - 1]) {
                Err(e) => Err(e),
                Ok((computed, value)) => if is_user_type(params[n - 1].expr_type) {
                    match frame_slot_code(
                        cx,
                        computed,
                        frame,
                        param_name((n - 1) as nat),
                        params[n - 1].expr_type,
                    ) {
                        Err(e) => Err(e),
                        Ok((with_slot, slot, new_frame)) => Ok(
                            (
                                with_slot.emit(InstrView::Store { value, ptr: slot }),
                                slots.push(ParamSlot::Spilled(slot)),
                                new_frame,
                            ),
                        ),
                    }
                } else {
                    Ok((computed, slots.push(ParamSlot::Direct(value)), frame))
                },
            },
        }
    }
}

/// Where the first `k` arguments fail, all of them fail in the same way.
pub proof fn lemma_params_code_error<Gc: GC>(
    cx: CodegenContextView,
    b: BuilderView,
    vars: Slots,
    sp: Value,
    params: Seq<TypedExprView>,
    k: nat,
)
    requires
        k <= params.len(),
        params_code::<Gc>(cx, b, vars, sp, params, k) is Err,
    ensures
        params_code::<Gc>(cx, b, vars, sp, params, params.len()) == params_code::<Gc>(
            cx,
            b,
            vars,
            sp,
            params,
            k,
        ),
    decreases params.len() - k,
{
    if k < params.len() {
        lemma_params_code_error::<Gc>(cx, b, vars, sp, params, k + 1);
    }
}

/// Whether code generation answered `r` and left the builder as `after`
/// where `expected` says what it should emit and which two values it
/// should return.
pub open spec fn emitted_pair(
    r: Result<(Value, Value), CodegenError>,
    after: BuilderView,
    expected: Result<(BuilderView, Value, Value), CodegenErrorView>,
) -> bool {
    match expected {
        Ok((b, first, second)) => r == Ok::<(Value, Value), CodegenError>((first, second))
            && after == b,
        Err(e) => r matches Err(x) && x.deep_view() == e,
    }
}

/// Whether code generation answered `r` and left the builder as `after`
/// where `expected` says what the computing of arguments should emit and
/// return.
pub open spec fn emitted_params(
    r: Result<(Vec<ParamSlot>, Value), CodegenError>,
    after: BuilderView,
    expected: Result<(BuilderView, Seq<ParamSlot>, Value), CodegenErrorView>,
) -> bool {
    match expected {
        Ok((b, slots, sp)) => r matches Ok((s, p)) && s@ == slots && p == sp && after == b,
        Err(e) => r matches Err(x) && x.deep_view() == e,
    }
}

fn i32_bits(n: i32) -> (r: u64)
    ensures
        r == bits_of(n),
{
    if n >= 0 {
        n as u64
    } else {
        (n as i64 + 0x1_0000_0000) as u64
    }
}

/// Emits the code of a literal and returns the handle on its value.
pub fn build_const(builder: &mut Builder, constant: &Const) -> (r: Value)
    ensures
        (final(builder).deep_view(), r) == const_code(
            old(builder).deep_view(),
            constant.deep_view(),
        ),
{
    match constant {
        Const::Bool(b) => {
            if *b {
                Value::ConstInt { bits: 1, value: 1 }
            } else {
                Value::ConstInt { bits: 1, value: 0 }
            }
        },
        Const::U8(i) => Value::ConstInt { bits: 8, value: *i as u64 },
        Const::I32(i) => Value::ConstInt { bits: 32, value: i32_bits(*i) },
        Const::Str(s) => builder.emit(
            Instr::GlobalString { text: s.clone(), name: ".str".to_owned() },
        ),
        Const::Void => Value::Absent,
    }
}

/// Emits the address of the slot `slot` of the object at `ptr`.
fn emit_field_address(builder: &mut Builder, ptr: Value, slot: u64, name: &str) -> (r: Value)
    ensures
        final(builder).deep_view() == old(builder).deep_view().emit(
            field_address(ptr, slot, name@),
        ),
        r == old(builder).deep_view().next_value(),
{
    let mut indices: Vec<Value> = Vec::new();
    indices.push(Value::ConstInt { bits: 32, value: 0 });
    indices.push(Value::ConstInt { bits: 32, value: slot });
    assert(indices@ =~= seq![zero32(), Value::ConstInt { bits: 32, value: slot }]);
    builder.emit(Instr::ElementPtr { ptr, indices, name: name.to_owned() })
}

/// Takes a new slot of the allocation frame for a value of the type
/// `var_type`. Returns the slot and the frame after it.
pub fn get_next_stack_element(
    cc: &CodegenContext,
    builder: &mut Builder,
    current_sp: Value,
    var_name: &str,
    var_type: &str,
) -> (r: Result<(Value, Value), CodegenError>)
    ensures
        emitted_pair(
            r,
            final(builder).deep_view(),
            frame_slot_code(
                cc.deep_view(),
                old(builder).deep_view(),
                current_sp,
                var_name@,
                var_type@,
            ),
        ),
{
    let mut params: Vec<Value> = Vec::new();
    params.push(current_sp);
    assert(params@ =~= seq![current_sp]);
    let sp = match create_func_call(cc, builder, &"stack_alloc".to_owned(), params, current_sp) {
        Err(e) => {
            return Err(e);
        },
        Ok(v) => v,
    };
    let ty = match type_to_llvm_type(&cc.llvm_structs, var_type) {
        Err(e) => {
            return Err(e);
        },
        Ok(t) => t,
    };
    let var = builder.emit(
        Instr::BitCast { value: sp, ty: pointer_to(ty), name: var_name.to_owned() },
    );
    Ok((var, sp))
}

/// Makes room for a variable of the type `var_type`: in the allocation
/// frame where the type is on the heap, else on the machine stack.
/// Returns the slot and the frame to go on with.
pub fn make_slot(
    cc: &CodegenContext,
    builder: &mut Builder,
    current_sp: Value,
    var_name: &str,
    var_type: &str,
) -> (r: Result<(Value, Value), CodegenError>)
    ensures
        emitted_pair(
            r,
            final(builder).deep_view(),
            slot_code(cc.deep_view(), old(builder).deep_view(), current_sp, var_name@, var_type@),
        ),
{
    if is_user_type_name(var_type) {
        get_next_stack_element(cc, builder, current_sp, var_name, var_type)
    } else {
        let ty = match type_to_llvm_type(&cc.llvm_structs, var_type) {
            Err(e) => {
                return Err(e);
            },
            Ok(t) => t,
        };
        let var = builder.emit(Instr::Alloca { ty, name: var_name.to_owned() });
        Ok((var, current_sp))
    }
}

/// Whether `r` is the layout that `expected` says.
pub open spec fn is_layout(
    r: Result<(u64, Vec<u64>, Vec<u64>), CodegenError>,
    expected: Result<(u64, Seq<u64>, Seq<u64>), CodegenErrorView>,
) -> bool {
    match expected {
        Ok((tag, field_slots, pointer_slots)) => r matches Ok((t, f, p)) && t == tag && f@
            == field_slots && p@ == pointer_slots,
        Err(e) => r matches Err(x) && x.deep_view() == e,
    }
}

/// The layout of the case `case` of the type `ty` under the strategy.
fn layout_of<Gc: GC>(cc: &CodegenContext, ty: &String, case: &str) -> (r: Result<
    (u64, Vec<u64>, Vec<u64>),
    CodegenError,
>)
    ensures
        is_layout(
            r,
            case_layout(cc.deep_view().binary.types, Gc::header().len(), ty@, case@),
        ),
{
    match get_case_id_case_indices_pointer_indices::<Gc>(&cc.binary, ty, case) {
        Ok((t, f, p)) => {
            assert(f.deep_view() =~= f@);
            assert(p.deep_view() =~= p@);
            Ok((t, f, p))
        },
        Err(e) => Err(e),
    }
}

/// Finds the slot of the innermost variable of the name `name`.
fn find_slot(vars: &Vec<(String, Value)>, name: &str) -> (r: Option<Value>)
    ensures
        r == lookup_last(vars.deep_view(), name@),
{
    let mut i: usize = vars.len();
    assert(vars.deep_view().take(i as int) =~= vars.deep_view());
    while i > 0
        invariant
            i <= vars.len(),
            lookup_last(vars.deep_view(), name@) == lookup_last(
                vars.deep_view().take(i as int),
                name@,
            ),
        decreases i,
    {
        i -= 1;
        proof {
            let prefix = vars.deep_view().take(i + 1);
            assert(prefix.last() == vars.deep_view()[i as int]);
            assert(prefix.drop_last() =~= vars.deep_view().take(i as int));
        }
        if str_eq(vars[i].0.as_str(), name) {
            return Some(vars[i].1);
        }
    }
    None
}

/// Brings the computed arguments back: a load for each that was put in
/// the frame. Returns the values in order.
pub fn load_params(builder: &mut Builder, computed_params: &Vec<ParamSlot>) -> (r: Vec<Value>)
    ensures
        (final(builder).deep_view(), r@) == loads_code(
            old(builder).deep_view(),
            computed_params@,
            computed_params@.len(),
        ),
{
    let mut loaded_params: Vec<Value> = Vec::new();
    let mut i: usize = 0;
    while i < computed_params.len()
        invariant
            i <= computed_params.len(),
            (builder.deep_view(), loaded_params@) == loads_code(
                old(builder).deep_view(),
                computed_params@,
                i as nat,
            ),
        decreases computed_params.len() - i,
    {
        match computed_params[i] {
            ParamSlot::Spilled(slot) => {
                let mut var_name = "$param$".to_owned();
                var_name.append(to_decimal(i as u64).as_str());
                let v = builder.emit(Instr::Load { ptr: slot, name: var_name });
                loaded_params.push(v);
            },
            ParamSlot::Direct(p) => {
                loaded_params.push(p);
            },
        }
        i += 1;
    }
    loaded_params
}

/// Emits the code of an expression and returns the handle on its value.
/// `vars` holds the slot of every variable in reach, the innermost last;
/// it is the same after the call as before.
pub fn build_expression<Gc: GC>(
    cc: &CodegenContext,
    builder: &mut Builder,
    vars: &mut Vec<(String, Value)>,
    current_sp: Value,
    ast: &TypedExpr,
) -> (r: Result<Value, CodegenError>)
    ensures
        final(vars)@ == old(vars)@,
        emitted(
            r,
            final(builder).deep_view(),
            lower::<Gc>(
                cc.deep_view(),
                old(builder).deep_view(),
                old(vars).deep_view(),
                current_sp,
                ast.deep_view(),
            ),
        ),
    decreases expr_size(ast.deep_view()), 0nat, 0nat,
{
    match &ast.expr {
        BinExpr::Const(c) => Ok(build_const(builder, c)),
        BinExpr::FuncCall(func_id, params) => {
            assert(ast.deep_view().expr->FuncCall_1 =~= params.deep_view());
            let (computed_params, new_sp) = match compute_params::<Gc>(
                cc,
                builder,
                vars,
                current_sp,
                params,
            ) {
                Err(e) => {
                    return Err(e);
                },
                Ok(computed) => computed,
            };
            let loaded_params = load_params(builder, &computed_params);
            create_func_call(cc, builder, func_id, loaded_params, new_sp)
        },
        BinExpr::GetTypeCaseField(obj, case, field_index) => {
            let obj_ptr = match build_expression::<Gc>(cc, builder, vars, current_sp, obj) {
                Err(e) => {
                    return Err(e);
                },
                Ok(v) => v,
            };
            let (_, case_fields, _) = match layout_of::<Gc>(cc, &obj.expr_type, case.as_str()) {
                Err(e) => {
                    return Err(e);
                },
                Ok(layout) => layout,
            };
            if *field_index >= case_fields.len() {
                return Err(
                    CodegenError::FieldNotFound {
                        ty: obj.expr_type.clone(),
                        case: case.clone(),
                        index: *field_index,
                    },
                );
            }
            let case_field_ptr = emit_field_address(
                builder,
                obj_ptr,
                case_fields[*field_index],
                "case_field_ptr",
            );
            let case_field = builder.emit(
                Instr::Load { ptr: case_field_ptr, name: "case_field".to_owned() },
            );
            if is_user_type_name(ast.expr_type.as_str()) {
                match Gc::type_ptr_access(cc, builder, case_field, current_sp) {
                    Err(e) => {
                        return Err(e);
                    },
                    Ok(_) => {},
                }
            }
            match Gc::type_ptr_drop(cc, builder, obj_ptr, current_sp) {
                Err(e) => Err(e),
                Ok(_) => Ok(case_field),
            }
        },
        BinExpr::If(cond, b1, b2) => {
            let ret_type = match type_to_llvm_type(&cc.llvm_structs, ast.expr_type.as_str()) {
                Err(e) => {
                    return Err(e);
                },
                Ok(t) => t,
            };
            build_if::<Gc>(cc, builder, vars, current_sp, cond, b1, b2, ret_type)
        },
        BinExpr::IsCase(obj, case) => {
            let obj_ptr = match build_expression::<Gc>(cc, builder, vars, current_sp, obj) {
                Err(e) => {
                    return Err(e);
                },
                Ok(v) => v,
            };
            let (case_id, _, _) = match layout_of::<Gc>(cc, &obj.expr_type, case.as_str()) {
                Err(e) => {
                    return Err(e);
                },
                Ok(layout) => layout,
            };
            let id_ptr = emit_field_address(
                builder,
                obj_ptr,
                Gc::get_type_header_length(),
                "case_id",
            );
            let found_case_id = builder.emit(
                Instr::Load { ptr: id_ptr, name: "case_id".to_owned() },
            );
            let cmp = builder.emit(
                Instr::Compare {
                    predicate: IntPredicate::Equal,
                    lhs: Value::ConstInt { bits: 32, value: case_id },
                    rhs: found_case_id,
                    name: "same_case".to_owned(),
                },
            );
            match Gc::type_ptr_drop(cc, builder, obj_ptr, current_sp) {
                Err(e) => Err(e),
                Ok(_) => Ok(cmp),
            }
        },
        BinExpr::Let(id, def, body) => build_let::<Gc>(
            cc,
            builder,
            vars,
            current_sp,
            id.as_str(),
            def,
            body,
        ),
        BinExpr::Sequence(e1, e2) => {
            let e1_res = match build_expression::<Gc>(cc, builder, vars, current_sp, e1) {
                Err(e) => {
                    return Err(e);
                },
                Ok(v) => v,
            };
            if is_user_type_name(e1.expr_type.as_str()) {
                match Gc::type_ptr_drop(cc, builder, e1_res, current_sp) {
                    Err(e) => {
                        return Err(e);
                    },
                    Ok(_) => {},
                }
            }
            build_expression::<Gc>(cc, builder, vars, current_sp, e2)
        },
        BinExpr::TypeCase(ty, c, fields) => {
            assert(ast.deep_view().expr->TypeCase_2 =~= fields.deep_view());
            build_type_case::<Gc>(cc, builder, vars, current_sp, ty, c.as_str(), fields)
        },
        BinExpr::Var(id) => {
            let slot = match find_slot(vars, id.as_str()) {
                None => {
                    return Err(CodegenError::VariableNotFound(id.clone()));
                },
                Some(s) => s,
            };
            let var = builder.emit(Instr::Load { ptr: slot, name: id.clone() });
            if is_user_type_name(ast.expr_type.as_str()) {
                match Gc::type_ptr_access(cc, builder, var, current_sp) {
                    Err(e) => {
                        return Err(e);
                    },
                    Ok(_) => {},
                }
            }
            Ok(var)
        },
    }
}

/// Emits the code of a conditional whose value is of the target type
/// `ret_type`.
pub fn build_if<Gc: GC>(
    cc: &CodegenContext,
    builder: &mut Builder,
    vars: &mut Vec<(String, Value)>,
    current_sp: Value,
    cond: &TypedExpr,
    then_ast: &TypedExpr,
    else_ast: &TypedExpr,
    ret_type: IrType,
) -> (r: Result<Value, CodegenError>)
    ensures
        final(vars)@ == old(vars)@,
        emitted(
            r,
            final(builder).deep_view(),
            if_code::<Gc>(
                cc.deep_view(),
                old(builder).deep_view(),
                old(vars).deep_view(),
                current_sp,
                cond.deep_view(),
                then_ast.deep_view(),
                else_ast.deep_view(),
                ret_type.deep_view(),
            ),
        ),
    decreases
            expr_size(cond.deep_view()) + expr_size(then_ast.deep_view()) + expr_size(
                else_ast.deep_view(),
            ),
            1nat,
            0nat,
{
    proof {
        lemma_expr_size_positive(cond.deep_view());
        lemma_expr_size_positive(then_ast.deep_view());
        lemma_expr_size_positive(else_ast.deep_view());
    }
    let then_block = builder.append_block("then");
    let else_block = builder.append_block("else");
    let continuation_block = builder.append_block("continuation");

    // Condition:
    let condition = match build_expression::<Gc>(cc, builder, vars, current_sp, cond) {
        Err(e) => {
            return Err(e);
        },
        Ok(v) => v,
    };
    builder.emit(Instr::CondBr { cond: condition, then_block, else_block });

    // Then:
    builder.position_at_end(then_block);
    let then_result = match build_expression::<Gc>(cc, builder, vars, current_sp, then_ast) {
        Err(e) => {
            return Err(e);
        },
        Ok(v) => v,
    };
    let incoming_block_then = builder.insert_block();
    let then_exits = str_eq(then_ast.expr_type.as_str(), EXIT_TYPE);
    if !then_exits {
        builder.emit(Instr::Br { block: continuation_block });
    } else {
        builder.emit(Instr::Br { block: then_block });
    }

    // Else:
    builder.position_at_end(else_block);
    let else_result = match build_expression::<Gc>(cc, builder, vars, current_sp, else_ast) {
        Err(e) => {
            return Err(e);
        },
        Ok(v) => v,
    };
    let incoming_block_else = builder.insert_block();
    let else_exits = str_eq(else_ast.expr_type.as_str(), EXIT_TYPE);
    if !else_exits {
        builder.emit(Instr::Br { block: continuation_block });
    } else {
        builder.emit(Instr::Br { block: else_block });
    }

    // Continuation:
    builder.position_at_end(continuation_block);
    let then_empty = then_exits || str_eq(then_ast.expr_type.as_str(), VOID_TYPE);
    let else_empty = else_exits || str_eq(else_ast.expr_type.as_str(), VOID_TYPE);
    if then_empty && else_empty {
        Ok(Value::Absent)
    } else if then_exits {
        Ok(else_result)
    } else if else_exits {
        Ok(then_result)
    } else {
        let mut incoming: Vec<(Value, usize)> = Vec::new();
        incoming.push((then_result, incoming_block_then));
        incoming.push((else_result, incoming_block_else));
        assert(incoming@ =~= seq![
            (then_result, incoming_block_then),
            (else_result, incoming_block_else),
        ]);
        Ok(builder.emit(Instr::Phi { ty: ret_type, incoming, name: "res".to_owned() }))
    }
}

/// Emits the code of `let id = def_ast in body_ast`.
pub fn build_let<Gc: GC>(
    cc: &CodegenContext,
    builder: &mut Builder,
    vars: &mut Vec<(String, Value)>,
    current_sp: Value,
    id: &str,
    def_ast: &TypedExpr,
    body_ast: &TypedExpr,
) -> (r: Result<Value, CodegenError>)
    ensures
        final(vars)@ == old(vars)@,
        emitted(
            r,
            final(builder).deep_view(),
            let_code::<Gc>(
                cc.deep_view(),
                old(builder).deep_view(),
                old(vars).deep_view(),
                current_sp,
                id@,
                def_ast.deep_view(),
                body_ast.deep_view(),
            ),
        ),
    decreases expr_size(def_ast.deep_view()) + expr_size(body_ast.deep_view()), 1nat, 0nat,
{
    proof {
        lemma_expr_size_positive(def_ast.deep_view());
        lemma_expr_size_positive(body_ast.deep_view());
    }
    let ghost scope = vars.deep_view();
    let on_heap = is_user_type_name(def_ast.expr_type.as_str());
    // A value on the heap goes to the allocation frame, every other to
    // the machine stack.
    let (variable, new_sp) = match make_slot(
        cc,
        builder,
        current_sp,
        id,
        def_ast.expr_type.as_str(),
    ) {
        Err(e) => {
            return Err(e);
        },
        Ok(slot) => slot,
    };
    let definition = match build_expression::<Gc>(cc, builder, vars, current_sp, def_ast) {
        Err(e) => {
            return Err(e);
        },
        Ok(v) => v,
    };
    builder.emit(Instr::Store { value: definition, ptr: variable });
    vars.push((id.to_owned(), variable));
    assert(vars.deep_view() =~= scope.push((id@, variable)));
    let body = build_expression::<Gc>(cc, builder, vars, new_sp, body_ast);
    vars.pop();
    assert(vars@ =~= old(vars)@);
    let res = match body {
        Err(e) => {
            return Err(e);
        },
        Ok(v) => v,
    };
    if on_heap {
        let obj_ptr = builder.emit(Instr::Load { ptr: variable, name: id.to_owned() });
        match Gc::type_ptr_drop(cc, builder, obj_ptr, current_sp) {
            Err(e) => {
                return Err(e);
            },
            Ok(_) => {},
        }
    }
    Ok(res)
}

/// Emits the code that builds an object of the case `case` of the type
/// `ty` from the values of `fields`.
pub fn build_type_case<Gc: GC>(
    cc: &CodegenContext,
    builder: &mut Builder,
    vars: &mut Vec<(String, Value)>,
    current_sp: Value,
    ty: &String,
    case: &str,
    fields: &Vec<TypedExpr>,
) -> (r: Result<Value, CodegenError>)
    ensures
        final(vars)@ == old(vars)@,
        emitted(
            r,
            final(builder).deep_view(),
            construction_code::<Gc>(
                cc.deep_view(),
                old(builder).deep_view(),
                old(vars).deep_view(),
                current_sp,
                ty@,
                case@,
                fields.deep_view(),
            ),
        ),
    decreases exprs_size(fields.deep_view()), 2nat, 0nat,
{
    let (computed_params, sp) = match compute_params::<Gc>(
        cc,
        builder,
        vars,
        current_sp,
        fields,
    ) {
        Err(e) => {
            return Err(e);
        },
        Ok(computed) => computed,
    };
    let llvm_type = match type_to_llvm_type(&cc.llvm_structs, ty.as_str()) {
        Err(e) => {
            return Err(e);
        },
        Ok(t) => t,
    };
    let size = match get_struct_size(builder, &cc.llvm_structs, ty) {
        Err(e) => {
            return Err(e);
        },
        Ok(v) => v,
    };
    let malloc_ret = match Gc::type_allocation(cc, builder, size, sp) {
        Err(e) => {
            return Err(e);
        },
        Ok(v) => v,
    };
    let mut struct_name = ty.clone();
    struct_name.append("*");
    let heap_ptr = builder.emit(
        Instr::BitCast { value: malloc_ret, ty: llvm_type, name: struct_name },
    );

    let fs = load_params(builder, &computed_params);

    Gc::init_header(builder, heap_ptr, size);

    let (id, field_indices, pointer_indices) = match layout_of::<Gc>(cc, ty, case) {
        Err(e) => {
            return Err(e);
        },
        Ok(layout) => layout,
    };

    // Save the tag:
    let ptr = emit_field_address(builder, heap_ptr, Gc::get_type_header_length(), "case_id");
    builder.emit(Instr::Store { value: Value::ConstInt { bits: 32, value: id }, ptr });

    // Save null to all pointer fields:
    let ghost tagged = builder.deep_view();
    let mut n: usize = 0;
    while n < pointer_indices.len()
        invariant
            n <= pointer_indices.len(),
            builder.deep_view() == nulls_code(tagged, heap_ptr, pointer_indices@, n as nat),
        decreases pointer_indices.len() - n,
    {
        let ptr = emit_field_address(builder, heap_ptr, pointer_indices[n], "field_ptr");
        builder.emit(Instr::StoreNull { ptr });
        n += 1;
    }

    // Save the fields:
    let ghost cleared = builder.deep_view();
    let mut k: usize = 0;
    while k < fs.len() && k < field_indices.len()
        invariant
            k <= fs.len(),
            k <= field_indices.len(),
            builder.deep_view() == stores_code(
                cleared,
                heap_ptr,
                fs@,
                field_indices@,
                k as nat,
            ),
        decreases fs.len() - k,
    {
        let ptr = emit_field_address(builder, heap_ptr, field_indices[k], "field_ptr");
        builder.emit(Instr::Store { value: fs[k], ptr });
        k += 1;
    }
    Ok(heap_ptr)
}

/// Emits the code that computes the arguments `params` from left to
/// right, each on the heap put aside in a slot of the allocation frame.
/// Returns, for each argument, its value or its slot, and the frame after
/// the slots.
pub fn compute_params<Gc: GC>(
    cc: &CodegenContext,
    builder: &mut Builder,
    vars: &mut Vec<(String, Value)>,
    current_sp: Value,
    params: &Vec<TypedExpr>,
) -> (r: Result<(Vec<ParamSlot>, Value), CodegenError>)
    ensures
        final(vars)@ == old(vars)@,
        emitted_params(
            r,
            final(builder).deep_view(),
            params_code::<Gc>(
                cc.deep_view(),
                old(builder).deep_view(),
                old(vars).deep_view(),
                current_sp,
                params.deep_view(),
                params.deep_view().len(),
            ),
        ),
    decreases exprs_size(params.deep_view()), 1nat, 0nat,
{
    let ghost cx = cc.deep_view();
    let ghost start = builder.deep_view();
    let ghost scope = vars.deep_view();
    let ghost all = params.deep_view();
    let mut computed_params: Vec<ParamSlot> = Vec::new();
    let mut sp = current_sp;
    let mut i: usize = 0;
    while i < params.len()
        invariant
            i <= params.len(),
            cx == cc.deep_view(),
            all == params.deep_view(),
            start == old(builder).deep_view(),
            vars@ == old(vars)@,
            scope == old(vars).deep_view(),
            params_code::<Gc>(cx, start, scope, current_sp, all, i as nat) == Ok::<
                (BuilderView, Seq<ParamSlot>, Value),
                CodegenErrorView,
            >((builder.deep_view(), computed_params@, sp)),
        decreases params.len() - i,
    {
        let param = &params[i];
        proof {
            lemma_exprs_size_bounds(all, i as int);
            assert(all[i as int] == param.deep_view());
        }
        let computed_param = match build_expression::<Gc>(cc, builder, vars, sp, param) {
            Err(e) => {
                proof {
                    lemma_params_code_error::<Gc>(cx, start, scope, current_sp, all, (i + 1) as nat);
                }
                return Err(e);
            },
            Ok(v) => v,
        };
        if is_user_type_name(param.expr_type.as_str()) {
            let mut var_name = "$param$".to_owned();
            var_name.append(to_decimal(i as u64).as_str());
            let (var, new_sp) = match get_next_stack_element(
                cc,
                builder,
                sp,
                var_name.as_str(),
                param.expr_type.as_str(),
            ) {
                Err(e) => {
                    proof {
                        lemma_params_code_error::<Gc>(
                            cx,
                            start,
                            scope,
                            current_sp,
                            all,
                            (i + 1) as nat,
                        );
                    }
                    return Err(e);
                },
                Ok(slot) => slot,
            };
            builder.emit(Instr::Store { value: computed_param, ptr: var });
            computed_params.push(ParamSlot::Spilled(var));
            sp = new_sp;
        } else {
            computed_params.push(ParamSlot::Direct(computed_param));
        }
        i += 1;
    }
    Ok((computed_params, sp))
}

} // verus!
