use arena_lang::binary::{
    BinExpr, BinFunction, BinParamDef, BinType, BinTypeCase, Binary, TypedExpr,
};
use arena_lang::codegen::build_in::get_build_in_func_call;
use arena_lang::codegen::expression::{
    build_const, build_expression, build_if, build_let, build_type_case, compute_params,
    get_next_stack_element, load_params, make_slot, ParamSlot,
};
use arena_lang::codegen::function::{
    append_func_call, build_function, create_entry, create_func_call, find_call_target,
    init_build_function, init_function,
};
use arena_lang::codegen::garbage_collection::{call_runtime, Spill, ARC, GC, TGC};
use arena_lang::codegen::ir::{
    clone_ir_type, copy_values, BinaryOp, Builder, CodegenError, Instr, IntPredicate,
    IrFunction, IrType, UnaryOp, Value,
};
use arena_lang::codegen::module::{build_module, collect_callees, is_declared};
use arena_lang::codegen::{codegen, codegen_for, CodegenContext};
use arena_lang::input::Strategy;
use arena_lang::module::Const;
use arena_lang::types::create_structs;

fn s(text: &str) -> String {
    text.to_string()
}

fn typed(expr: BinExpr, ty: &str) -> TypedExpr {
    TypedExpr { expr, expr_type: s(ty) }
}

fn num(n: i32) -> TypedExpr {
    typed(BinExpr::Const(Const::I32(n)), "i32")
}

fn boolean(b: bool) -> TypedExpr {
    typed(BinExpr::Const(Const::Bool(b)), "bool")
}

fn var(name: &str, ty: &str) -> TypedExpr {
    typed(BinExpr::Var(s(name)), ty)
}

fn call(name: &str, args: Vec<TypedExpr>, ty: &str) -> TypedExpr {
    typed(BinExpr::FuncCall(s(name), args), ty)
}

fn some(n: i32) -> TypedExpr {
    typed(BinExpr::TypeCase(s("$m$Option"), s("Some"), vec![num(n)]), "$m$Option")
}

fn none() -> TypedExpr {
    typed(BinExpr::TypeCase(s("$m$Option"), s("None"), vec![]), "$m$Option")
}

fn let_in(name: &str, definition: TypedExpr, body: TypedExpr) -> TypedExpr {
    let ty = body.expr_type.clone();
    typed(BinExpr::Let(s(name), Box::new(definition), Box::new(body)), &ty)
}

fn then(first: TypedExpr, second: TypedExpr) -> TypedExpr {
    let ty = second.expr_type.clone();
    typed(BinExpr::Sequence(Box::new(first), Box::new(second)), &ty)
}

fn if_else(cond: TypedExpr, then_expr: TypedExpr, else_expr: TypedExpr, ty: &str) -> TypedExpr {
    typed(BinExpr::If(Box::new(cond), Box::new(then_expr), Box::new(else_expr)), ty)
}

fn const32(value: u64) -> Value {
    Value::ConstInt { bits: 32, value }
}

fn byte_ptr() -> IrType {
    IrType::Pointer(Box::new(IrType::Int(8)))
}

fn option_ptr() -> IrType {
    IrType::Pointer(Box::new(IrType::Struct(s("$m$Option"))))
}

fn function(args: &[(&str, &str)], ret: &str, body: TypedExpr) -> BinFunction {
    BinFunction {
        args: args
            .iter()
            .map(|(name, ty)| BinParamDef { name: s(name), param_type: s(ty) })
            .collect(),
        ret_type: s(ret),
        body,
    }
}

fn types() -> Vec<(String, BinType)> {
    vec![
        (
            s("$m$Option"),
            BinType {
                cases: vec![
                    BinTypeCase { name: s("None"), fields: vec![] },
                    BinTypeCase { name: s("Some"), fields: vec![s("i32")] },
                ],
            },
        ),
        (
            s("$m$List"),
            BinType {
                cases: vec![
                    BinTypeCase { name: s("Nil"), fields: vec![] },
                    BinTypeCase { name: s("Cons"), fields: vec![s("i32"), s("$m$List")] },
                ],
            },
        ),
    ]
}

fn context<Gc: GC>(functions: Vec<(String, BinFunction)>) -> CodegenContext {
    let binary = Binary { functions, types: types() };
    let llvm_structs = create_structs::<Gc>(&binary).expect("the types can be laid out");
    CodegenContext { binary, llvm_structs }
}

fn entered() -> Builder {
    let mut builder = Builder::new();
    create_entry(&mut builder);
    builder
}

/// The code of `e` in a function whose frame is its first parameter.
fn lowered<Gc: GC>(e: &TypedExpr) -> (Result<Value, CodegenError>, Vec<Instr>) {
    let cc = context::<Gc>(vec![(s("$m$f$0"), function(&[("n", "i32")], "i32", num(0)))]);
    let mut builder = entered();
    let mut vars = vec![];
    let r = build_expression::<Gc>(&cc, &mut builder, &mut vars, Value::Param(0), e);
    assert!(vars.is_empty());
    (r, builder.instrs.into_iter().map(|(_, i)| i).collect())
}

fn call_instr(callee: &str, args: Vec<Value>, name: &str) -> Instr {
    Instr::Call { callee: s(callee), args, name: s(name) }
}

fn address(ptr: Value, slot: u64, name: &str) -> Instr {
    Instr::ElementPtr { ptr, indices: vec![const32(0), const32(slot)], name: s(name) }
}

fn calls_of(instrs: &[Instr], symbol: &str) -> usize {
    instrs.iter().filter(|i| matches!(i, Instr::Call { callee, .. } if callee == symbol)).count()
}

#[test]
fn a_new_builder_is_empty_and_create_entry_enters_the_first_block() {
    let builder = Builder::new();
    assert!(builder.blocks.is_empty());
    assert!(builder.instrs.is_empty());
    let builder = entered();
    assert_eq!(builder.blocks, vec![s("entry")]);
    assert_eq!(builder.insert_block(), 0);
}

#[test]
fn the_builder_numbers_instructions_and_blocks() {
    let mut builder = entered();
    assert_eq!(builder.emit(Instr::RetVoid), Value::Inst(0));
    let block = builder.append_block("next");
    assert_eq!(block, 1);
    builder.position_at_end(block);
    assert_eq!(builder.emit(Instr::Br { block: 0 }), Value::Inst(1));
    assert_eq!(builder.instrs, vec![(0, Instr::RetVoid), (1, Instr::Br { block: 0 })]);
    assert_eq!(copy_values(&vec![Value::Absent, Value::Param(2)]), vec![Value::Absent, Value::Param(2)]);
}

#[test]
fn literals_are_constants_of_the_width_of_their_type() {
    let mut builder = entered();
    assert_eq!(build_const(&mut builder, &Const::I32(5)), const32(5));
    assert_eq!(build_const(&mut builder, &Const::I32(-1)), const32(0xFFFF_FFFF));
    assert_eq!(build_const(&mut builder, &Const::I32(i32::MIN)), const32(0x8000_0000));
    assert_eq!(build_const(&mut builder, &Const::U8(200)), Value::ConstInt { bits: 8, value: 200 });
    assert_eq!(build_const(&mut builder, &Const::Bool(true)), Value::ConstInt { bits: 1, value: 1 });
    assert_eq!(build_const(&mut builder, &Const::Bool(false)), Value::ConstInt { bits: 1, value: 0 });
    assert_eq!(build_const(&mut builder, &Const::Void), Value::Absent);
    assert!(builder.instrs.is_empty());
    assert_eq!(build_const(&mut builder, &Const::Str(s("hi"))), Value::Inst(0));
    assert_eq!(builder.instrs, vec![(0, Instr::GlobalString { text: s("hi"), name: s(".str") })]);
}

#[test]
fn arithmetic_is_one_instruction_on_the_arguments() {
    let (r, instrs) = lowered::<Spill>(&call("add_i32", vec![num(1), num(2)], "i32"));
    assert_eq!(r, Ok(Value::Inst(0)));
    assert_eq!(
        instrs,
        vec![Instr::Binary { op: BinaryOp::Add, lhs: const32(1), rhs: const32(2), name: s("addtmp") }]
    );
    let (_, instrs) = lowered::<Spill>(&call("mod_u8", vec![num(7), num(2)], "u8"));
    assert_eq!(
        instrs,
        vec![Instr::Binary {
            op: BinaryOp::SignedRem,
            lhs: const32(7),
            rhs: const32(2),
            name: s("modtmp")
        }]
    );
    let (_, instrs) = lowered::<Spill>(&call("neg_i32", vec![num(7)], "i32"));
    assert_eq!(instrs, vec![Instr::Unary { op: UnaryOp::Neg, value: const32(7), name: s("negtmp") }]);
    let (_, instrs) = lowered::<Spill>(&call("not_bool", vec![boolean(true)], "bool"));
    assert_eq!(
        instrs,
        vec![Instr::Unary {
            op: UnaryOp::Not,
            value: Value::ConstInt { bits: 1, value: 1 },
            name: s("nottmp")
        }]
    );
}

#[test]
fn comparisons_are_signed() {
    let (_, instrs) = lowered::<Spill>(&call("ge_u8", vec![num(1), num(2)], "bool"));
    assert_eq!(
        instrs,
        vec![Instr::Compare {
            predicate: IntPredicate::SignedGreaterOrEqual,
            lhs: const32(1),
            rhs: const32(2),
            name: s("getmp")
        }]
    );
    let (_, instrs) = lowered::<Spill>(&call("neq_bool", vec![boolean(true), boolean(false)], "bool"));
    assert!(matches!(instrs[0], Instr::Compare { predicate: IntPredicate::NotEqual, .. }));
}

#[test]
fn arguments_are_computed_from_left_to_right() {
    let e = call(
        "sub_i32",
        vec![call("add_i32", vec![num(1), num(2)], "i32"), call("mul_i32", vec![num(3), num(4)], "i32")],
        "i32",
    );
    let (r, instrs) = lowered::<Spill>(&e);
    assert_eq!(r, Ok(Value::Inst(2)));
    assert!(matches!(instrs[0], Instr::Binary { op: BinaryOp::Add, .. }));
    assert!(matches!(instrs[1], Instr::Binary { op: BinaryOp::Mul, .. }));
    assert_eq!(
        instrs[2],
        Instr::Binary { op: BinaryOp::Sub, lhs: Value::Inst(0), rhs: Value::Inst(1), name: s("subtmp") }
    );
}

#[test]
fn printing_a_number_calls_printf_with_a_format() {
    let (r, instrs) = lowered::<Spill>(&call("print_i32", vec![num(5)], "void"));
    assert_eq!(r, Ok(Value::Inst(1)));
    assert_eq!(
        instrs,
        vec![
            Instr::GlobalString { text: s("%d"), name: s(".str") },
            call_instr("printf", vec![Value::Inst(0), const32(5)], "callret"),
        ]
    );
    let byte = typed(BinExpr::Const(Const::U8(65)), "u8");
    let (_, instrs) = lowered::<Spill>(&call("print_u8", vec![byte], "void"));
    assert_eq!(instrs[0], Instr::GlobalString { text: s("%c"), name: s(".str") });
}

#[test]
fn printing_a_text_passes_the_text_itself() {
    let text = typed(BinExpr::Const(Const::Str(s("hi\n"))), "str");
    let (_, instrs) = lowered::<Spill>(&call("print_str", vec![text], "void"));
    assert_eq!(
        instrs,
        vec![
            Instr::GlobalString { text: s("hi\n"), name: s(".str") },
            call_instr("printf", vec![Value::Inst(0)], "callret"),
        ]
    );
}

#[test]
fn char_at_indexes_and_loads() {
    let text = typed(BinExpr::Const(Const::Str(s("abc"))), "str");
    let (r, instrs) = lowered::<Spill>(&call("char_at", vec![text, num(1)], "u8"));
    assert_eq!(r, Ok(Value::Inst(2)));
    assert_eq!(
        instrs[1..],
        [
            Instr::ElementPtr { ptr: Value::Inst(0), indices: vec![const32(1)], name: s("char_at_ptr") },
            Instr::Load { ptr: Value::Inst(1), name: s("char_at") },
        ]
    );
}

#[test]
fn exit_is_called_without_the_frame_and_returns_nothing() {
    let (_, instrs) = lowered::<Spill>(&call("exit", vec![num(3)], "$exit$"));
    assert_eq!(instrs, vec![call_instr("exit", vec![const32(3)], "")]);
}

#[test]
fn a_function_of_the_program_is_handed_the_frame_first() {
    let (_, instrs) = lowered::<Spill>(&call("$m$f$0", vec![num(3)], "i32"));
    assert_eq!(instrs, vec![call_instr("$m$f$0", vec![Value::Param(0), const32(3)], "callret")]);
}

#[test]
fn an_unknown_function_or_a_missing_argument_is_reported() {
    let (r, _) = lowered::<Spill>(&call("frobnicate", vec![], "void"));
    assert_eq!(r, Err(CodegenError::UnknownFunction(s("frobnicate"))));
    let (r, instrs) = lowered::<Spill>(&call("add_i32", vec![num(1)], "i32"));
    assert_eq!(r, Err(CodegenError::MissingArgument { function: s("add_i32"), index: 1 }));
    assert!(instrs.is_empty());
    let (r, _) = lowered::<Spill>(&call("neg_i32", vec![], "i32"));
    assert_eq!(r, Err(CodegenError::MissingArgument { function: s("neg_i32"), index: 0 }));
    let (r, _) = lowered::<Spill>(&call("char_at", vec![], "u8"));
    assert_eq!(r, Err(CodegenError::MissingArgument { function: s("char_at"), index: 0 }));
}

#[test]
fn an_unbound_variable_is_reported() {
    let (r, _) = lowered::<Spill>(&var("ghost", "i32"));
    assert_eq!(r, Err(CodegenError::VariableNotFound(s("ghost"))));
}

#[test]
fn a_scalar_binding_lives_on_the_machine_stack() {
    let e = let_in("x", num(5), var("x", "i32"));
    let (r, instrs) = lowered::<ARC>(&e);
    assert_eq!(r, Ok(Value::Inst(2)));
    assert_eq!(
        instrs,
        vec![
            Instr::Alloca { ty: IrType::Int(32), name: s("x") },
            Instr::Store { value: const32(5), ptr: Value::Inst(0) },
            Instr::Load { ptr: Value::Inst(0), name: s("x") },
        ]
    );
}

#[test]
fn a_heap_binding_is_built_read_and_given_up_under_reference_counting() {
    let e = let_in("x", some(5), var("x", "$m$Option"));
    let (r, instrs) = lowered::<ARC>(&e);
    assert_eq!(r, Ok(Value::Inst(12)));
    let sp = Value::Param(0);
    let expected = vec![
        // The slot of the variable in the allocation frame.
        call_instr("stack_alloc", vec![sp], "callret"),
        Instr::BitCast {
            value: Value::Inst(0),
            ty: IrType::Pointer(Box::new(option_ptr())),
            name: s("x"),
        },
        // The object.
        Instr::SizeOf { aggregate: s("$m$Option") },
        call_instr("type_alloc", vec![Value::Inst(2), sp], "callret"),
        Instr::BitCast { value: Value::Inst(3), ty: option_ptr(), name: s("$m$Option*") },
        address(Value::Inst(4), 0, "arc_header"),
        Instr::Store { value: const32(1), ptr: Value::Inst(5) },
        address(Value::Inst(4), 1, "case_id"),
        Instr::Store { value: const32(1), ptr: Value::Inst(7) },
        address(Value::Inst(4), 2, "field_ptr"),
        Instr::Store { value: const32(5), ptr: Value::Inst(9) },
        // The binding.
        Instr::Store { value: Value::Inst(4), ptr: Value::Inst(1) },
        // The read of the variable takes a reference.
        Instr::Load { ptr: Value::Inst(1), name: s("x") },
        Instr::BitCast { value: Value::Inst(12), ty: byte_ptr(), name: s("arc_count") },
        call_instr("arc_ptr_access", vec![Value::Inst(13), Value::Inst(0)], ""),
        // The end of the binding gives its reference up.
        Instr::Load { ptr: Value::Inst(1), name: s("x") },
        Instr::BitCast { value: Value::Inst(15), ty: byte_ptr(), name: s("arc_count") },
        call_instr("arc_drop_ptr", vec![Value::Inst(16), sp], ""),
    ];
    assert_eq!(instrs, expected);
}

#[test]
fn a_value_read_n_times_is_accessed_n_times_and_dropped_once() {
    for reads in 0..4 {
        let mut body = num(0);
        for _ in 0..reads {
            body = then(var("x", "$m$Option"), body);
        }
        let (r, instrs) = lowered::<ARC>(&let_in("x", none(), body));
        assert!(r.is_ok());
        assert_eq!(calls_of(&instrs, "arc_ptr_access"), reads);
        // Each discarded read gives its reference up again, and the
        // binding gives up its own.
        assert_eq!(calls_of(&instrs, "arc_drop_ptr"), reads + 1);
    }
}

#[test]
fn a_value_that_is_read_and_kept_is_dropped_once() {
    let (_, instrs) = lowered::<ARC>(&let_in("x", none(), var("x", "$m$Option")));
    assert_eq!(calls_of(&instrs, "arc_ptr_access"), 1);
    assert_eq!(calls_of(&instrs, "arc_drop_ptr"), 1);
}

#[test]
fn the_other_strategies_take_and_give_up_nothing() {
    let e = let_in("x", some(5), then(var("x", "$m$Option"), var("x", "$m$Option")));
    for instrs in [lowered::<Spill>(&e).1, lowered::<TGC>(&e).1] {
        assert_eq!(calls_of(&instrs, "arc_ptr_access"), 0);
        assert_eq!(calls_of(&instrs, "arc_drop_ptr"), 0);
        assert!(!instrs.iter().any(|i| matches!(i, Instr::BitCast { name, .. } if name == "arc_count")));
    }
}

#[test]
fn the_tracing_strategy_allocates_through_its_own_symbol_and_stamps_the_size() {
    let (r, instrs) = lowered::<TGC>(&some(5));
    assert_eq!(r, Ok(Value::Inst(2)));
    assert_eq!(
        instrs,
        vec![
            Instr::SizeOf { aggregate: s("$m$Option") },
            call_instr("tgc_type_alloc", vec![Value::Inst(0), Value::Param(0)], "callret"),
            Instr::BitCast { value: Value::Inst(1), ty: option_ptr(), name: s("$m$Option*") },
            address(Value::Inst(2), 0, "tgc_header"),
            Instr::IntCast { value: Value::Inst(0), ty: IrType::Int(32), name: s("OBJ_SIZE") },
            Instr::Store { value: Value::Inst(4), ptr: Value::Inst(3) },
            address(Value::Inst(2), 1, "case_id"),
            Instr::Store { value: const32(1), ptr: Value::Inst(6) },
            address(Value::Inst(2), 2, "field_ptr"),
            Instr::Store { value: const32(5), ptr: Value::Inst(8) },
        ]
    );
}

#[test]
fn the_arena_strategy_writes_no_header() {
    let (r, instrs) = lowered::<Spill>(&some(5));
    assert_eq!(r, Ok(Value::Inst(2)));
    assert_eq!(
        instrs,
        vec![
            Instr::SizeOf { aggregate: s("$m$Option") },
            call_instr("type_alloc", vec![Value::Inst(0), Value::Param(0)], "callret"),
            Instr::BitCast { value: Value::Inst(1), ty: option_ptr(), name: s("$m$Option*") },
            address(Value::Inst(2), 0, "case_id"),
            Instr::Store { value: const32(1), ptr: Value::Inst(3) },
            address(Value::Inst(2), 1, "field_ptr"),
            Instr::Store { value: const32(5), ptr: Value::Inst(5) },
        ]
    );
}

#[test]
fn every_pointer_field_is_set_to_null_before_the_values_are_stored() {
    let nil = typed(BinExpr::TypeCase(s("$m$List"), s("Nil"), vec![]), "$m$List");
    let (r, instrs) = lowered::<Spill>(&nil);
    assert_eq!(r, Ok(Value::Inst(2)));
    assert_eq!(
        instrs[3..],
        [
            address(Value::Inst(2), 0, "case_id"),
            Instr::Store { value: const32(0x1_0000), ptr: Value::Inst(3) },
            address(Value::Inst(2), 1, "field_ptr"),
            Instr::StoreNull { ptr: Value::Inst(5) },
        ]
    );
}

#[test]
fn a_heap_argument_is_put_aside_in_the_frame_until_the_call() {
    let nil = typed(BinExpr::TypeCase(s("$m$List"), s("Nil"), vec![]), "$m$List");
    let cons = typed(BinExpr::TypeCase(s("$m$List"), s("Cons"), vec![num(1), nil]), "$m$List");
    let (r, instrs) = lowered::<Spill>(&cons);
    assert!(r.is_ok());
    let list_ptr = IrType::Pointer(Box::new(IrType::Struct(s("$m$List"))));
    // The inner object is built first: 7 instructions. Then it is spilled.
    assert_eq!(
        instrs[7..10],
        [
            call_instr("stack_alloc", vec![Value::Param(0)], "callret"),
            Instr::BitCast {
                value: Value::Inst(7),
                ty: IrType::Pointer(Box::new(clone_ir_type(&list_ptr))),
                name: s("$param$1"),
            },
            Instr::Store { value: Value::Inst(2), ptr: Value::Inst(8) },
        ]
    );
    // The outer object is allocated in the frame after the slot,
    assert_eq!(instrs[10], Instr::SizeOf { aggregate: s("$m$List") });
    assert_eq!(instrs[11], call_instr("type_alloc", vec![Value::Inst(10), Value::Inst(7)], "callret"));
    // and the argument is brought back after the allocation.
    assert_eq!(instrs[13], Instr::Load { ptr: Value::Inst(8), name: s("$param$1") });
    // The fields: tag, null, the number to slot 2, the pointer to slot 1.
    assert_eq!(
        instrs[14..],
        [
            address(Value::Inst(12), 0, "case_id"),
            Instr::Store { value: const32(0x1_0001), ptr: Value::Inst(14) },
            address(Value::Inst(12), 1, "field_ptr"),
            Instr::StoreNull { ptr: Value::Inst(16) },
            address(Value::Inst(12), 2, "field_ptr"),
            Instr::Store { value: const32(1), ptr: Value::Inst(18) },
            address(Value::Inst(12), 1, "field_ptr"),
            Instr::Store { value: Value::Inst(13), ptr: Value::Inst(20) },
        ]
    );
}

#[test]
fn compute_and_load_params_keep_the_order_of_the_arguments() {
    let cc = context::<Spill>(vec![]);
    let mut builder = entered();
    let mut vars = vec![];
    let params = vec![num(1), none(), num(2)];
    let (slots, sp) =
        compute_params::<Spill>(&cc, &mut builder, &mut vars, Value::Param(0), &params).unwrap();
    assert_eq!(
        slots,
        vec![
            ParamSlot::Direct(const32(1)),
            ParamSlot::Spilled(Value::Inst(6)),
            ParamSlot::Direct(const32(2)),
        ]
    );
    assert_eq!(sp, Value::Inst(5));
    let before = builder.instrs.len();
    let loaded = load_params(&mut builder, &slots);
    assert_eq!(loaded, vec![const32(1), Value::Inst(8), const32(2)]);
    assert_eq!(builder.instrs.len(), before + 1);
    assert_eq!(builder.instrs[before].1, Instr::Load { ptr: Value::Inst(6), name: s("$param$1") });
}

#[test]
fn a_field_is_loaded_from_its_slot_and_the_object_is_given_up() {
    let e = typed(
        BinExpr::GetTypeCaseField(Box::new(var("o", "$m$Option")), s("Some"), 0),
        "i32",
    );
    let cc = context::<ARC>(vec![]);
    let mut builder = entered();
    let mut vars = vec![(s("o"), Value::Inst(40))];
    let r = build_expression::<ARC>(&cc, &mut builder, &mut vars, Value::Param(0), &e);
    assert_eq!(r, Ok(Value::Inst(4)));
    let instrs: Vec<Instr> = builder.instrs.into_iter().map(|(_, i)| i).collect();
    assert_eq!(
        instrs,
        vec![
            Instr::Load { ptr: Value::Inst(40), name: s("o") },
            Instr::BitCast { value: Value::Inst(0), ty: byte_ptr(), name: s("arc_count") },
            call_instr("arc_ptr_access", vec![Value::Inst(1), Value::Param(0)], ""),
            address(Value::Inst(0), 2, "case_field_ptr"),
            Instr::Load { ptr: Value::Inst(3), name: s("case_field") },
            Instr::BitCast { value: Value::Inst(0), ty: byte_ptr(), name: s("arc_count") },
            call_instr("arc_drop_ptr", vec![Value::Inst(5), Value::Param(0)], ""),
        ]
    );
}

#[test]
fn a_field_that_the_case_does_not_have_is_reported() {
    let field = |case: &str, index| {
        typed(BinExpr::GetTypeCaseField(Box::new(none()), s(case), index), "i32")
    };
    assert_eq!(
        lowered::<ARC>(&field("Some", 1)).0,
        Err(CodegenError::FieldNotFound { ty: s("$m$Option"), case: s("Some"), index: 1 })
    );
    assert_eq!(
        lowered::<ARC>(&field("Maybe", 0)).0,
        Err(CodegenError::CaseNotFound { ty: s("$m$Option"), case: s("Maybe") })
    );
    let of_number = typed(BinExpr::GetTypeCaseField(Box::new(num(1)), s("Some"), 0), "i32");
    assert_eq!(lowered::<ARC>(&of_number).0, Err(CodegenError::TypeNotFound(s("i32"))));
}

#[test]
fn a_case_test_compares_the_tag() {
    let e = typed(BinExpr::IsCase(Box::new(var("o", "$m$Option")), s("Some")), "bool");
    let cc = context::<Spill>(vec![]);
    let mut builder = entered();
    let mut vars = vec![(s("o"), Value::Inst(40))];
    let r = build_expression::<Spill>(&cc, &mut builder, &mut vars, Value::Param(0), &e);
    assert_eq!(r, Ok(Value::Inst(3)));
    let instrs: Vec<Instr> = builder.instrs.into_iter().map(|(_, i)| i).collect();
    assert_eq!(
        instrs,
        vec![
            Instr::Load { ptr: Value::Inst(40), name: s("o") },
            address(Value::Inst(0), 0, "case_id"),
            Instr::Load { ptr: Value::Inst(1), name: s("case_id") },
            Instr::Compare {
                predicate: IntPredicate::Equal,
                lhs: const32(1),
                rhs: Value::Inst(2),
                name: s("same_case"),
            },
        ]
    );
}

#[test]
fn a_conditional_merges_its_branches_at_the_join() {
    let e = if_else(boolean(true), num(1), num(2), "i32");
    let cc = context::<Spill>(vec![]);
    let mut builder = entered();
    let mut vars = vec![];
    let r = build_expression::<Spill>(&cc, &mut builder, &mut vars, Value::Param(0), &e);
    assert_eq!(r, Ok(Value::Inst(3)));
    assert_eq!(builder.blocks, vec![s("entry"), s("then"), s("else"), s("continuation")]);
    assert_eq!(builder.current, 3);
    assert_eq!(
        builder.instrs,
        vec![
            (
                0,
                Instr::CondBr {
                    cond: Value::ConstInt { bits: 1, value: 1 },
                    then_block: 1,
                    else_block: 2
                }
            ),
            (1, Instr::Br { block: 3 }),
            (2, Instr::Br { block: 3 }),
            (
                3,
                Instr::Phi {
                    ty: IrType::Int(32),
                    incoming: vec![(const32(1), 1), (const32(2), 2)],
                    name: s("res")
                }
            ),
        ]
    );
}

#[test]
fn a_branch_that_never_returns_does_not_reach_the_join() {
    let exit = || call("exit", vec![num(1)], "$exit$");
    let e = if_else(boolean(true), exit(), num(5), "i32");
    let cc = context::<Spill>(vec![]);
    let mut builder = entered();
    let r = build_expression::<Spill>(&cc, &mut builder, &mut vec![], Value::Param(0), &e);
    // The join passes the value of the branch that returns.
    assert_eq!(r, Ok(const32(5)));
    assert_eq!(
        builder.instrs,
        vec![
            (
                0,
                Instr::CondBr {
                    cond: Value::ConstInt { bits: 1, value: 1 },
                    then_block: 1,
                    else_block: 2
                }
            ),
            (1, call_instr("exit", vec![const32(1)], "")),
            (1, Instr::Br { block: 1 }),
            (2, Instr::Br { block: 3 }),
        ]
    );

    let e = if_else(boolean(true), num(5), exit(), "i32");
    let mut builder = entered();
    let r = build_expression::<Spill>(&cc, &mut builder, &mut vec![], Value::Param(0), &e);
    assert_eq!(r, Ok(const32(5)));
    assert_eq!(builder.instrs[1], (1, Instr::Br { block: 3 }));
    assert_eq!(builder.instrs[3], (2, Instr::Br { block: 2 }));
    assert_eq!(builder.instrs.len(), 4);
}

#[test]
fn a_conditional_without_a_value_leaves_none() {
    let exit = || call("exit", vec![num(1)], "$exit$");
    let nothing = || typed(BinExpr::Const(Const::Void), "void");
    let cc = context::<Spill>(vec![]);
    for e in [
        if_else(boolean(true), exit(), exit(), "$exit$"),
        if_else(boolean(true), nothing(), nothing(), "void"),
        if_else(boolean(true), exit(), nothing(), "void"),
        if_else(boolean(true), nothing(), exit(), "void"),
    ] {
        let mut builder = entered();
        let r = build_expression::<Spill>(&cc, &mut builder, &mut vec![], Value::Param(0), &e);
        assert_eq!(r, Ok(Value::Absent));
        assert!(!builder.instrs.iter().any(|(_, i)| matches!(i, Instr::Phi { .. })));
    }
}

#[test]
fn nested_conditionals_merge_from_the_blocks_they_end_in() {
    let inner = if_else(boolean(false), num(1), num(2), "i32");
    let e = if_else(boolean(true), inner, num(3), "i32");
    let cc = context::<Spill>(vec![]);
    let mut builder = entered();
    let r = build_expression::<Spill>(&cc, &mut builder, &mut vec![], Value::Param(0), &e);
    assert!(r.is_ok());
    assert_eq!(
        builder.blocks,
        vec!["entry", "then", "else", "continuation", "then", "else", "continuation"]
    );
    match &builder.instrs.last().unwrap().1 {
        Instr::Phi { incoming, .. } => {
            // The outer `then` ends in the join of the inner conditional.
            assert_eq!(incoming[0].1, 6);
            assert_eq!(incoming[1], (const32(3), 2));
        }
        other => panic!("not a merge: {:?}", other),
    }
}

#[test]
fn a_discarded_heap_value_is_given_up_at_once() {
    let (_, instrs) = lowered::<ARC>(&then(none(), num(1)));
    assert_eq!(calls_of(&instrs, "arc_drop_ptr"), 1);
    let (_, instrs) = lowered::<ARC>(&then(num(2), num(1)));
    assert_eq!(calls_of(&instrs, "arc_drop_ptr"), 0);
}

#[test]
fn the_pieces_of_lowering_can_be_called_on_their_own() {
    let cc = context::<Spill>(vec![]);
    let mut builder = entered();
    let mut vars = vec![];
    let sp = Value::Param(0);
    assert_eq!(
        build_if::<Spill>(&cc, &mut builder, &mut vars, sp, &boolean(true), &num(1), &num(2), IrType::Int(32)),
        Ok(Value::Inst(3))
    );
    assert_eq!(
        build_let::<Spill>(&cc, &mut builder, &mut vars, sp, "x", &num(1), &var("x", "i32")),
        Ok(Value::Inst(6))
    );
    assert_eq!(
        build_type_case::<Spill>(&cc, &mut builder, &mut vars, sp, &s("$m$Option"), "None", &vec![]),
        Ok(Value::Inst(9))
    );
    assert_eq!(
        build_type_case::<Spill>(&cc, &mut builder, &mut vars, sp, &s("i32"), "None", &vec![]),
        Err(CodegenError::StructNotFound(s("i32")))
    );
    assert_eq!(
        get_next_stack_element(&cc, &mut builder, sp, "slot", "$m$Option").map(|(_, sp)| sp),
        Ok(Value::Inst(12))
    );
    assert_eq!(make_slot(&cc, &mut builder, sp, "n", "i32"), Ok((Value::Inst(14), sp)));
    assert_eq!(
        make_slot(&cc, &mut builder, sp, "n", "$m$Gone"),
        Err(CodegenError::StructNotFound(s("$m$Gone")))
    );
}

#[test]
fn calls_find_their_targets() {
    let cc = context::<Spill>(vec![
        (s("main"), function(&[], "i32", num(0))),
        (s("$m$f$0"), function(&[("a", "i32"), ("b", "i32")], "void", num(0))),
    ]);
    assert_eq!(find_call_target(&cc, &s("main")), Ok(Some((0, false))));
    assert_eq!(find_call_target(&cc, &s("$m$f$0")), Ok(Some((3, true))));
    assert_eq!(find_call_target(&cc, &s("printf")), Ok(Some((1, false))));
    assert_eq!(find_call_target(&cc, &s("exit")), Ok(Some((1, true))));
    assert_eq!(find_call_target(&cc, &s("type_alloc")), Ok(Some((2, false))));
    assert_eq!(find_call_target(&cc, &s("eq_i32")), Ok(None));
    assert_eq!(
        find_call_target(&cc, &s("nothing")),
        Err(CodegenError::UnknownFunction(s("nothing")))
    );
}

#[test]
fn the_frame_is_passed_where_the_callee_has_one_parameter_more() {
    let mut builder = entered();
    let sp = Value::Param(0);
    append_func_call(&mut builder, "f", 2, false, vec![const32(1)], sp);
    append_func_call(&mut builder, "g", 1, true, vec![const32(1)], sp);
    append_func_call(&mut builder, "h", 3, true, vec![const32(1)], sp);
    assert_eq!(
        builder.instrs,
        vec![
            (0, call_instr("f", vec![sp, const32(1)], "callret")),
            (0, call_instr("g", vec![const32(1)], "")),
            (0, call_instr("h", vec![const32(1)], "")),
        ]
    );
}

#[test]
fn a_linked_built_in_is_not_expanded_in_place() {
    let cc = context::<Spill>(vec![]);
    let mut builder = entered();
    let sp = Value::Param(0);
    assert_eq!(get_build_in_func_call(&cc, &mut builder, &s("printf"), &vec![], sp), Ok(None));
    assert_eq!(get_build_in_func_call(&cc, &mut builder, &s("malloc"), &vec![], sp), Ok(None));
    assert!(builder.instrs.is_empty());
    assert_eq!(
        get_build_in_func_call(&cc, &mut builder, &s("what"), &vec![], sp),
        Err(CodegenError::UnknownFunction(s("what")))
    );
    assert_eq!(
        get_build_in_func_call(&cc, &mut builder, &s("eq_i32"), &vec![const32(1), const32(2)], sp),
        Ok(Some(Value::Inst(0)))
    );
    assert_eq!(
        create_func_call(&cc, &mut builder, &s("malloc"), vec![const32(8)], sp),
        Ok(Value::Inst(1))
    );
    assert_eq!(builder.instrs[1].1, call_instr("malloc", vec![const32(8)], "callret"));
    assert_eq!(call_runtime(&cc, &mut builder, "close_stack", vec![], Value::Absent), Ok(()));
    assert_eq!(builder.instrs[2].1, call_instr("close_stack", vec![], ""));
}

#[test]
fn a_declaration_takes_the_frame_unless_it_is_built_in_or_the_entry() {
    let cc = context::<Spill>(vec![]);
    let args = vec![s("i32"), s("$m$Option")];
    let user = init_function(&cc, "f", &args, "void", false, false, false).unwrap();
    assert_eq!(
        user,
        IrFunction {
            name: s("f"),
            params: vec![byte_ptr(), IrType::Int(32), option_ptr()],
            ret_type: IrType::Void,
            is_var_arg: false,
            body: None,
        }
    );
    let linked = init_function(&cc, "printf", &vec![s("str")], "i32", true, true, false).unwrap();
    assert_eq!(linked.params, vec![byte_ptr()]);
    assert!(linked.is_var_arg);
    assert_eq!(linked.ret_type, IrType::Int(32));
    let entry = init_function(&cc, "main", &vec![], "i32", false, false, true).unwrap();
    assert!(entry.params.is_empty());
    assert_eq!(
        init_function(&cc, "f", &vec![s("$m$Gone")], "void", false, false, false),
        Err(CodegenError::StructNotFound(s("$m$Gone")))
    );
}

#[test]
fn a_function_stores_its_parameters_and_returns_its_body() {
    let f = function(&[("a", "i32"), ("b", "i32")], "i32", var("b", "i32"));
    let cc = context::<ARC>(vec![]);
    let body = build_function::<ARC>(&cc, &f, false).unwrap();
    assert_eq!(body.blocks, vec![s("entry")]);
    let instrs: Vec<Instr> = body.instrs.into_iter().map(|(_, i)| i).collect();
    assert_eq!(
        instrs,
        vec![
            Instr::Alloca { ty: IrType::Int(32), name: s("a") },
            Instr::Store { value: Value::Param(1), ptr: Value::Inst(0) },
            Instr::Alloca { ty: IrType::Int(32), name: s("b") },
            Instr::Store { value: Value::Param(2), ptr: Value::Inst(2) },
            Instr::Load { ptr: Value::Inst(2), name: s("b") },
            Instr::Ret { value: Value::Inst(4) },
        ]
    );
}

#[test]
fn a_function_gives_up_its_heap_parameters_at_the_end() {
    let f = function(&[("o", "$m$Option")], "void", num(1));
    let cc = context::<ARC>(vec![]);
    let body = build_function::<ARC>(&cc, &f, false).unwrap();
    let instrs: Vec<Instr> = body.instrs.into_iter().map(|(_, i)| i).collect();
    assert_eq!(
        instrs,
        vec![
            call_instr("stack_alloc", vec![Value::Param(0)], "callret"),
            Instr::BitCast {
                value: Value::Inst(0),
                ty: IrType::Pointer(Box::new(option_ptr())),
                name: s("o"),
            },
            Instr::Store { value: Value::Param(1), ptr: Value::Inst(1) },
            Instr::BitCast { value: Value::Param(1), ty: byte_ptr(), name: s("arc_count") },
            call_instr("arc_drop_ptr", vec![Value::Inst(3), Value::Inst(0)], ""),
            Instr::RetVoid,
        ]
    );
}

#[test]
fn a_function_that_returns_nothing_gives_up_the_value_of_its_body() {
    let f = function(&[], "void", none());
    let cc = context::<ARC>(vec![]);
    let body = build_function::<ARC>(&cc, &f, false).unwrap();
    let instrs: Vec<Instr> = body.instrs.into_iter().map(|(_, i)| i).collect();
    assert_eq!(calls_of(&instrs, "arc_drop_ptr"), 1);
    assert_eq!(instrs.last(), Some(&Instr::RetVoid));
    let f = function(&[], "$m$Option", none());
    let body = build_function::<ARC>(&cc, &f, false).unwrap();
    let instrs: Vec<Instr> = body.instrs.into_iter().map(|(_, i)| i).collect();
    assert_eq!(calls_of(&instrs, "arc_drop_ptr"), 0);
    assert!(matches!(instrs.last(), Some(Instr::Ret { .. })));
}

#[test]
fn the_entry_function_sets_the_heap_up_and_takes_it_down() {
    let f = function(&[], "i32", num(0));
    let cc = context::<ARC>(vec![]);
    let body = build_function::<ARC>(&cc, &f, true).unwrap();
    let instrs: Vec<Instr> = body.instrs.into_iter().map(|(_, i)| i).collect();
    assert_eq!(
        instrs,
        vec![
            call_instr("init_heap", vec![], ""),
            call_instr("init_stack", vec![], "callret"),
            call_instr("close_stack", vec![], ""),
            call_instr("close_heap", vec![], ""),
            Instr::Ret { value: const32(0) },
        ]
    );
    let body = build_function::<TGC>(&context::<TGC>(vec![]), &f, true).unwrap();
    let instrs: Vec<Instr> = body.instrs.into_iter().map(|(_, i)| i).collect();
    assert_eq!(instrs[0], call_instr("tgc_init_heap", vec![], ""));
    assert_eq!(instrs[3], call_instr("tgc_close_heap", vec![], ""));
}

#[test]
fn a_built_function_has_its_declaration_and_its_body() {
    let f = function(&[("a", "i32")], "i32", var("a", "i32"));
    let cc = context::<Spill>(vec![]);
    let built =
        init_build_function::<Spill>(&cc, "$m$f$0", &vec![s("i32")], "i32", false, &f, false).unwrap();
    assert_eq!(built.name, "$m$f$0");
    assert_eq!(built.params, vec![byte_ptr(), IrType::Int(32)]);
    assert_eq!(built.ret_type, IrType::Int(32));
    let body = built.body.as_ref().expect("a built function has a body");
    assert_eq!(body.instrs.len(), 4);
    assert!(collect_callees(&built).is_empty());
}

fn program() -> Binary {
    let helper = function(
        &[("o", "$m$Option")],
        "i32",
        typed(BinExpr::GetTypeCaseField(Box::new(var("o", "$m$Option")), s("Some"), 0), "i32"),
    );
    let user_main = function(
        &[],
        "void",
        call("print_i32", vec![call("$m$helper$0", vec![some(5)], "i32")], "void"),
    );
    let unused = function(&[], "void", call("exit", vec![num(1)], "$exit$"));
    let wrapper = function(&[], "i32", then(call("$m$main$0", vec![], "void"), num(0)));
    Binary {
        functions: vec![
            (s("main"), wrapper),
            (s("$m$unused$0"), unused),
            (s("$m$helper$0"), helper),
            (s("$m$main$0"), user_main),
        ],
        types: types(),
    }
}

#[test]
fn the_unit_holds_what_the_entry_reaches_and_what_that_calls() {
    let module = build_module::<ARC>(program()).unwrap();
    assert_eq!(module.name, "ArenaBinary");
    assert_eq!(module.structs.len(), 2);
    let names: Vec<&str> = module.functions.iter().map(|f| f.name.as_str()).collect();
    assert_eq!(
        names,
        vec![
            "main",
            "$m$main$0",
            "$m$helper$0",
            "init_heap",
            "init_stack",
            "close_stack",
            "close_heap",
            "type_alloc",
            "stack_alloc",
            "printf",
            "arc_ptr_access",
            "arc_drop_ptr",
        ]
    );
    for f in &module.functions[..3] {
        assert!(f.body.is_some());
    }
    for f in &module.functions[3..] {
        assert!(f.body.is_none());
    }
    assert!(is_declared(&module.functions, "printf"));
    assert!(!is_declared(&module.functions, "$m$unused$0"));
    assert!(!is_declared(&module.functions, "exit"));
    assert!(module.functions[0].params.is_empty());
    assert_eq!(module.functions[1].params, vec![byte_ptr()]);
    assert_eq!(module.functions[2].params, vec![byte_ptr(), option_ptr()]);
    let printf = module.functions.iter().find(|f| f.name == "printf").unwrap();
    assert!(printf.is_var_arg);
    assert_eq!(printf.params, vec![byte_ptr()]);
    assert_eq!(
        collect_callees(&module.functions[0]),
        vec!["init_heap", "init_stack", "$m$main$0", "close_stack", "close_heap"]
    );
}

#[test]
fn the_strategy_is_selected_once() {
    assert_eq!(codegen_for(Strategy::Arc, program()), codegen::<ARC>(program()));
    assert_eq!(codegen_for(Strategy::Spill, program()), codegen::<Spill>(program()));
    assert_eq!(codegen_for(Strategy::Tgc, program()), codegen::<TGC>(program()));
    assert_ne!(codegen::<ARC>(program()), codegen::<Spill>(program()));
    let traced = codegen::<TGC>(program()).unwrap();
    assert!(is_declared(&traced.functions, "tgc_type_alloc"));
    assert!(!is_declared(&traced.functions, "type_alloc"));
    assert!(!is_declared(&traced.functions, "arc_drop_ptr"));
}

#[test]
fn generating_twice_gives_the_same_unit() {
    assert_eq!(codegen::<ARC>(program()), codegen::<ARC>(program()));
}

#[test]
fn a_program_without_main_cannot_be_generated() {
    let binary = Binary { functions: vec![], types: types() };
    assert_eq!(codegen::<ARC>(binary), Err(CodegenError::MainNotFound));
}

#[test]
fn an_inconsistent_program_is_reported_and_no_unit_is_made() {
    let wrapper = function(&[], "i32", call("$m$gone$0", vec![], "void"));
    let binary = Binary { functions: vec![(s("main"), wrapper)], types: types() };
    assert_eq!(codegen::<ARC>(binary), Err(CodegenError::UnknownFunction(s("$m$gone$0"))));
    let callee = function(&[], "i32", var("ghost", "i32"));
    let wrapper = function(&[], "i32", call("$m$f$0", vec![], "i32"));
    let binary = Binary {
        functions: vec![(s("main"), wrapper), (s("$m$f$0"), callee)],
        types: types(),
    };
    assert_eq!(codegen::<ARC>(binary), Err(CodegenError::VariableNotFound(s("ghost"))));
}

#[test]
fn a_recursive_function_is_built_once() {
    let looping = function(&[], "void", call("$m$loop$0", vec![], "void"));
    let wrapper = function(&[], "i32", then(call("$m$loop$0", vec![], "void"), num(0)));
    let binary = Binary {
        functions: vec![(s("$m$loop$0"), looping), (s("main"), wrapper)],
        types: vec![],
    };
    let module = codegen::<Spill>(binary).unwrap();
    let names: Vec<&str> = module.functions.iter().map(|f| f.name.as_str()).collect();
    assert_eq!(
        names,
        vec!["main", "$m$loop$0", "init_heap", "init_stack", "close_stack", "close_heap"]
    );
}

#[test]
fn a_field_is_read_from_the_slot_it_was_stored_to() {
    for (field, value) in [(0usize, 7u64), (1, 0)] {
        let nil = typed(BinExpr::TypeCase(s("$m$List"), s("Nil"), vec![]), "$m$List");
        let cons =
            typed(BinExpr::TypeCase(s("$m$List"), s("Cons"), vec![num(7), nil]), "$m$List");
        let ty = if field == 0 { "i32" } else { "$m$List" };
        let read = typed(BinExpr::GetTypeCaseField(Box::new(cons), s("Cons"), field), ty);
        let (r, instrs) = lowered::<ARC>(&read);
        assert!(r.is_ok());
        // The slot that the read takes the address of,
        let read_at = instrs
            .iter()
            .find_map(|i| match i {
                Instr::ElementPtr { ptr, indices, name } if name == "case_field_ptr" => {
                    Some((*ptr, indices.clone()))
                }
                _ => None,
            })
            .expect("the read takes an address");
        // and the last store to that slot of that object.
        let mut stored = None;
        for (n, i) in instrs.iter().enumerate() {
            if let Instr::ElementPtr { ptr, indices, name } = i {
                if name == "field_ptr" && (*ptr, indices.clone()) == read_at {
                    if let Instr::Store { value, .. } = &instrs[n + 1] {
                        stored = Some(*value);
                    }
                }
            }
        }
        if field == 0 {
            assert_eq!(stored, Some(const32(value)));
        } else {
            // The pointer field holds the inner object, brought back from
            // its slot in the frame.
            let inner = stored.expect("the pointer field is stored");
            assert!(matches!(inner, Value::Inst(_)));
        }
    }
}

#[test]
fn the_tag_that_is_stored_is_the_tag_that_is_tested() {
    let test = typed(BinExpr::IsCase(Box::new(some(5)), s("Some")), "bool");
    let (r, instrs) = lowered::<ARC>(&test);
    assert!(r.is_ok());
    let stored = instrs
        .iter()
        .enumerate()
        .find_map(|(n, i)| match i {
            Instr::ElementPtr { indices, name, .. } if name == "case_id" => {
                match &instrs[n + 1] {
                    Instr::Store { value, .. } => Some((indices.clone(), *value)),
                    _ => None,
                }
            }
            _ => None,
        })
        .expect("the tag is stored");
    let tested = instrs
        .iter()
        .enumerate()
        .find_map(|(n, i)| match i {
            Instr::ElementPtr { indices, name, .. } if name == "case_id" => {
                match (&instrs[n + 1], instrs.get(n + 2)) {
                    (Instr::Load { .. }, Some(Instr::Compare { lhs, .. })) => {
                        Some((indices.clone(), *lhs))
                    }
                    _ => None,
                }
            }
            _ => None,
        })
        .expect("the tag is tested");
    assert_eq!(stored, tested);
    assert_eq!(stored.1, const32(1));
}
