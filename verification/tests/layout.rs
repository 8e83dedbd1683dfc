use arena_lang::binary::{BinType, BinTypeCase, Binary};
use arena_lang::codegen::garbage_collection::{Spill, ARC, GC, TGC};
use arena_lang::codegen::ir::{Builder, CodegenError, Instr, IrType, Value};
use arena_lang::types::{
    create_structs, get_case_id_case_indices_pointer_indices, get_struct_size, is_user_type_name,
    pointer_to, type_to_llvm_type,
};

fn s(text: &str) -> String {
    text.to_string()
}

fn case(name: &str, fields: &[&str]) -> BinTypeCase {
    BinTypeCase { name: s(name), fields: fields.iter().map(|f| s(f)).collect() }
}

/// `Tree` has the cases `Leaf(i32)`, `Node(Tree, i32, Tree)` and
/// `Empty()`; `Option` has `None()` and `Some(i32)`.
fn program() -> Binary {
    Binary {
        functions: vec![],
        types: vec![
            (
                s("$m$Tree"),
                BinType {
                    cases: vec![
                        case("Leaf", &["i32"]),
                        case("Node", &["$m$Tree", "i32", "$m$Tree"]),
                        case("Empty", &[]),
                    ],
                },
            ),
            (s("$m$Option"), BinType { cases: vec![case("None", &[]), case("Some", &["i32"])] }),
        ],
    }
}

fn tree() -> IrType {
    IrType::Pointer(Box::new(IrType::Struct(s("$m$Tree"))))
}

fn layout<Gc: GC>(ty: &str, case: &str) -> Result<(u64, Vec<u64>, Vec<u64>), CodegenError> {
    get_case_id_case_indices_pointer_indices::<Gc>(&program(), &s(ty), case)
}

#[test]
fn a_name_with_the_sigil_is_a_heap_type() {
    assert!(is_user_type_name("$m$Tree"));
    assert!(is_user_type_name("$"));
    assert!(!is_user_type_name("i32"));
    assert!(!is_user_type_name("str"));
    assert!(!is_user_type_name("void"));
    assert!(!is_user_type_name(""));
    assert!(!is_user_type_name("a$"));
}

#[test]
fn the_type_of_what_never_returns_is_no_heap_type() {
    assert!(!is_user_type_name("$exit$"));
}

#[test]
fn built_in_types_have_fixed_target_types() {
    let structs = create_structs::<Spill>(&program()).expect("the types can be laid out");
    let ty = |name: &str| type_to_llvm_type(&structs, name);
    assert_eq!(ty("u8"), Ok(IrType::Int(8)));
    assert_eq!(ty("i32"), Ok(IrType::Int(32)));
    assert_eq!(ty("i64"), Ok(IrType::Int(64)));
    assert_eq!(ty("bool"), Ok(IrType::Int(1)));
    assert_eq!(ty("str"), Ok(IrType::Pointer(Box::new(IrType::Int(8)))));
    assert_eq!(ty("i8*"), Ok(IrType::Pointer(Box::new(IrType::Int(8)))));
    assert_eq!(ty("void"), Ok(IrType::Void));
    assert_eq!(ty("$exit$"), Ok(IrType::Void));
    assert_eq!(ty("$m$Tree"), Ok(tree()));
    assert_eq!(ty("$m$Bush"), Err(CodegenError::StructNotFound(s("$m$Bush"))));
    assert_eq!(ty("float"), Err(CodegenError::StructNotFound(s("float"))));
    assert_eq!(pointer_to(IrType::Int(8)), IrType::Pointer(Box::new(IrType::Int(8))));
}

#[test]
fn the_header_depends_on_the_strategy() {
    assert_eq!(Spill::get_type_header(), vec![]);
    assert_eq!(Spill::get_type_header_length(), 0);
    assert_eq!(ARC::get_type_header(), vec![IrType::Int(32)]);
    assert_eq!(ARC::get_type_header_length(), 1);
    assert_eq!(TGC::get_type_header(), vec![IrType::Int(32)]);
    assert_eq!(TGC::get_type_header_length(), 1);
}

#[test]
fn objects_hold_header_tag_pointers_and_scalars_in_this_order() {
    let int = || IrType::Int(32);
    let counted = create_structs::<ARC>(&program()).expect("the types can be laid out");
    assert_eq!(
        counted,
        vec![
            (s("$m$Tree"), vec![int(), int(), tree(), tree(), int(), int()]),
            (s("$m$Option"), vec![int(), int(), int()]),
        ]
    );
    let spilled = create_structs::<Spill>(&program()).expect("the types can be laid out");
    assert_eq!(
        spilled,
        vec![
            (s("$m$Tree"), vec![int(), tree(), tree(), int(), int()]),
            (s("$m$Option"), vec![int(), int()]),
        ]
    );
}

#[test]
fn laying_out_twice_gives_the_same_layout() {
    assert_eq!(create_structs::<ARC>(&program()), create_structs::<ARC>(&program()));
    assert_eq!(create_structs::<ARC>(&program()), create_structs::<TGC>(&program()));
    assert_eq!(layout::<ARC>("$m$Tree", "Node"), layout::<ARC>("$m$Tree", "Node"));
    assert_eq!(layout::<ARC>("$m$Tree", "Node"), layout::<TGC>("$m$Tree", "Node"));
}

#[test]
fn the_layout_does_not_depend_on_the_functions() {
    let mut with_function = program();
    with_function.functions.push((
        s("f"),
        arena_lang::binary::BinFunction {
            args: vec![],
            ret_type: s("void"),
            body: arena_lang::binary::TypedExpr {
                expr: arena_lang::binary::BinExpr::Const(arena_lang::module::Const::Void),
                expr_type: s("void"),
            },
        },
    ));
    assert_eq!(create_structs::<ARC>(&with_function), create_structs::<ARC>(&program()));
}

#[test]
fn the_tag_packs_the_case_below_the_number_of_pointers() {
    assert_eq!(layout::<ARC>("$m$Tree", "Leaf").unwrap().0, 0x2_0000);
    assert_eq!(layout::<ARC>("$m$Tree", "Node").unwrap().0, 0x2_0001);
    assert_eq!(layout::<ARC>("$m$Tree", "Empty").unwrap().0, 0x2_0002);
    assert_eq!(layout::<ARC>("$m$Option", "None").unwrap().0, 0);
    assert_eq!(layout::<ARC>("$m$Option", "Some").unwrap().0, 1);
    assert_eq!(layout::<Spill>("$m$Tree", "Node").unwrap().0, 0x2_0001);
}

#[test]
fn the_fields_of_a_case_lie_in_their_groups() {
    assert_eq!(layout::<ARC>("$m$Tree", "Leaf"), Ok((0x2_0000, vec![4], vec![2, 3])));
    assert_eq!(layout::<ARC>("$m$Tree", "Node"), Ok((0x2_0001, vec![2, 5, 3], vec![2, 3])));
    assert_eq!(layout::<ARC>("$m$Tree", "Empty"), Ok((0x2_0002, vec![], vec![2, 3])));
    assert_eq!(layout::<Spill>("$m$Tree", "Leaf"), Ok((0x2_0000, vec![3], vec![1, 2])));
    assert_eq!(layout::<Spill>("$m$Tree", "Node"), Ok((0x2_0001, vec![1, 4, 2], vec![1, 2])));
    assert_eq!(layout::<ARC>("$m$Option", "Some"), Ok((1, vec![2], vec![])));
    assert_eq!(layout::<Spill>("$m$Option", "Some"), Ok((1, vec![1], vec![])));
}

#[test]
fn the_slot_of_a_field_holds_the_type_of_the_field() {
    let structs = create_structs::<ARC>(&program()).unwrap();
    let body = &structs[0].1;
    let binary = program();
    for case in &binary.types[0].1.cases {
        let (_, slots, _) = layout::<ARC>("$m$Tree", &case.name).unwrap();
        assert_eq!(slots.len(), case.fields.len());
        for (field, slot) in case.fields.iter().zip(slots) {
            assert_eq!(Ok(&body[slot as usize]), type_to_llvm_type(&structs, field).as_ref());
        }
    }
}

#[test]
fn no_two_fields_share_a_slot() {
    let mut seen = vec![];
    for case in ["Leaf", "Node", "Empty"] {
        for slot in layout::<ARC>("$m$Tree", case).unwrap().1 {
            assert!(!seen.contains(&slot));
            seen.push(slot);
        }
    }
    seen.sort();
    assert_eq!(seen, vec![2, 3, 4, 5]);
}

#[test]
fn a_missing_type_or_case_is_reported_by_name() {
    assert_eq!(
        layout::<ARC>("$m$Bush", "Leaf"),
        Err(CodegenError::TypeNotFound(s("$m$Bush")))
    );
    assert_eq!(
        layout::<ARC>("$m$Tree", "Twig"),
        Err(CodegenError::CaseNotFound { ty: s("$m$Tree"), case: s("Twig") })
    );
}

#[test]
fn a_field_of_a_type_without_layout_is_reported() {
    let binary = Binary {
        functions: vec![],
        types: vec![(s("$m$T"), BinType { cases: vec![case("C", &["i32", "$m$Gone"])] })],
    };
    assert_eq!(create_structs::<ARC>(&binary), Err(CodegenError::StructNotFound(s("$m$Gone"))));
    let binary = Binary {
        functions: vec![],
        types: vec![(s("$m$T"), BinType { cases: vec![case("C", &["float", "$m$Gone"])] })],
    };
    // The pointer fields are laid out before the others.
    assert_eq!(create_structs::<ARC>(&binary), Err(CodegenError::StructNotFound(s("$m$Gone"))));
}

#[test]
fn a_type_with_too_many_pointer_fields_cannot_be_laid_out() {
    let fields: Vec<&str> = std::iter::repeat("$m$Big").take(0x1_0000).collect();
    let binary = Binary {
        functions: vec![],
        types: vec![(s("$m$Big"), BinType { cases: vec![case("Wide", &fields)] })],
    };
    assert_eq!(
        get_case_id_case_indices_pointer_indices::<ARC>(&binary, &s("$m$Big"), "Wide"),
        Err(CodegenError::LayoutTooLarge(s("$m$Big")))
    );
    let fields: Vec<&str> = std::iter::repeat("$m$Big").take(0xFFFF).collect();
    let binary = Binary {
        functions: vec![],
        types: vec![(s("$m$Big"), BinType { cases: vec![case("Wide", &fields)] })],
    };
    let (tag, slots, pointers) =
        get_case_id_case_indices_pointer_indices::<ARC>(&binary, &s("$m$Big"), "Wide").unwrap();
    assert_eq!(tag, 0xFFFF_0000);
    assert_eq!(slots.len(), 0xFFFF);
    assert_eq!(pointers[0], 2);
    assert_eq!(pointers[0xFFFE], 0x1_0000);
}

#[test]
fn the_size_of_an_object_is_an_instruction_of_its_own() {
    let structs = create_structs::<ARC>(&program()).unwrap();
    let mut builder = Builder::new();
    assert_eq!(get_struct_size(&mut builder, &structs, &s("$m$Tree")), Ok(Value::Inst(0)));
    assert_eq!(builder.instrs, vec![(0, Instr::SizeOf { aggregate: s("$m$Tree") })]);
    assert_eq!(
        get_struct_size(&mut builder, &structs, &s("i32")),
        Err(CodegenError::StructNotFound(s("i32")))
    );
    assert_eq!(builder.instrs.len(), 1);
}
