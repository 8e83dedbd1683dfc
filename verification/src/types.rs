//! Names of the built-in types, what tells a heap type from a value type,
//! and the layout of heap objects.
use crate::binary::{
    Binary, BinTypeCase, BinTypeCaseView, BinTypeView, case_position, find_case_index,
};
use crate::codegen::garbage_collection::GC;
use crate::codegen::ir::{
    outcome, Builder, CodegenError, CodegenErrorView, InstrView, Instr, IrType, IrTypeView, Value,
};
use crate::collect::{lemma_try_collect_error, try_collect};
use crate::lookup::{find_index, lookup};
use crate::text::str_eq;
use vstd::prelude::*;

verus! {

/// The type of a byte.
pub const U8_TYPE: &'static str = "u8";

/// The type of an integer of 32 bits.
pub const I32_TYPE: &'static str = "i32";

/// The type of an integer of 64 bits.
pub const I64_TYPE: &'static str = "i64";

/// The type of a truth value.
pub const BOOL_TYPE: &'static str = "bool";

/// The type of a text.
pub const STR_TYPE: &'static str = "str";

/// The type of no value.
pub const VOID_TYPE: &'static str = "void";

/// An untyped pointer of the target.
pub const VOID_PTR_TYPE: &'static str = "i8*";

/// The type of an expression that never returns.
pub const EXIT_TYPE: &'static str = "$exit$";

/// The sigil that starts the identifier of every heap-allocated type.
pub const SIGIL: char = '$';

/// The most slots an object can have: a slot is addressed by a constant
/// of 32 bits.
pub const MAX_SLOTS: u64 = 0xFFFF_FFFF;

/// The tag of an object holds the number of a case in its low 16 bits and
/// the number of pointer fields in its high 16 bits.
pub const TAG_LIMIT: u64 = 0x1_0000;

/// A type identifier that begins with the sigil names a heap-allocated user
/// type, but for the type of what never returns; every other identifier
/// names a value type.
pub open spec fn is_user_type(ty: Seq<char>) -> bool {
    ty.len() > 0 && ty[0] == SIGIL && ty != EXIT_TYPE@
}

/// Whether `ty` names a heap-allocated user type.
pub fn is_user_type_name(ty: &str) -> (r: bool)
    ensures
        r == is_user_type(ty@),
{
    ty.unicode_len() > 0 && ty.get_char(0) == SIGIL && !str_eq(ty, EXIT_TYPE)
}

/// The target type of a value of the type `ty`: integers by their
/// widths, text and the untyped pointer as a pointer to bytes, `void` and
/// what never returns as no value, and every other type as a pointer to
/// the aggregate of its name, which must be among `structs`.
pub open spec fn ir_type(structs: Seq<(Seq<char>, Seq<IrTypeView>)>, ty: Seq<char>) -> Result<
    IrTypeView,
    CodegenErrorView,
> {
    if ty == VOID_PTR_TYPE@ {
        Ok(IrTypeView::Pointer(Box::new(IrTypeView::Int(8))))
    } else if ty == U8_TYPE@ {
        Ok(IrTypeView::Int(8))
    } else if ty == I32_TYPE@ {
        Ok(IrTypeView::Int(32))
    } else if ty == I64_TYPE@ {
        Ok(IrTypeView::Int(64))
    } else if ty == BOOL_TYPE@ {
        Ok(IrTypeView::Int(1))
    } else if ty == STR_TYPE@ {
        Ok(IrTypeView::Pointer(Box::new(IrTypeView::Int(8))))
    } else if ty == VOID_TYPE@ || ty == EXIT_TYPE@ {
        Ok(IrTypeView::Void)
    } else if lookup(structs, ty) is Some {
        Ok(IrTypeView::Pointer(Box::new(IrTypeView::Struct(ty))))
    } else {
        Err(CodegenErrorView::StructNotFound(ty))
    }
}

/// The type of a pointer to `to`.
pub fn pointer_to(to: IrType) -> (r: IrType)
    ensures
        r.deep_view() == IrTypeView::Pointer(Box::new(to.deep_view())),
{
    IrType::Pointer(Box::new(to))
}

/// The target type of a value of the type `ty`.
pub fn type_to_llvm_type(llvm_structs: &Vec<(String, Vec<IrType>)>, ty: &str) -> (r: Result<
    IrType,
    CodegenError,
>)
    ensures
        outcome(r) == ir_type(llvm_structs.deep_view(), ty@),
{
    if str_eq(ty, VOID_PTR_TYPE) {
        Ok(pointer_to(IrType::Int(8)))
    } else if str_eq(ty, U8_TYPE) {
        Ok(IrType::Int(8))
    } else if str_eq(ty, I32_TYPE) {
        Ok(IrType::Int(32))
    } else if str_eq(ty, I64_TYPE) {
        Ok(IrType::Int(64))
    } else if str_eq(ty, BOOL_TYPE) {
        Ok(IrType::Int(1))
    } else if str_eq(ty, STR_TYPE) {
        Ok(pointer_to(IrType::Int(8)))
    } else if str_eq(ty, VOID_TYPE) || str_eq(ty, EXIT_TYPE) {
        Ok(IrType::Void)
    } else {
        let name = ty.to_owned();
        match find_index(llvm_structs, &name) {
            Some(_) => Ok(pointer_to(IrType::Struct(name))),
            None => Err(CodegenError::StructNotFound(name)),
        }
    }
}

/// The fields of heap type among `fields`, in order.
pub open spec fn pointer_fields(fields: Seq<Seq<char>>) -> Seq<Seq<char>>
    decreases fields.len(),
{
    if fields.len() == 0 {
        seq![]
    } else if is_user_type(fields.last()) {
        pointer_fields(fields.drop_last()).push(fields.last())
    } else {
        pointer_fields(fields.drop_last())
    }
}

/// The fields of value type among `fields`, in order.
pub open spec fn scalar_fields(fields: Seq<Seq<char>>) -> Seq<Seq<char>>
    decreases fields.len(),
{
    if fields.len() == 0 {
        seq![]
    } else if is_user_type(fields.last()) {
        scalar_fields(fields.drop_last())
    } else {
        scalar_fields(fields.drop_last()).push(fields.last())
    }
}

/// The fields of heap type of the first `k` cases, in order.
pub open spec fn pointer_fields_of(cases: Seq<BinTypeCaseView>, k: nat) -> Seq<Seq<char>>
    decreases k,
{
    if k == 0 || k > cases.len() {
        seq![]
    } else {
        pointer_fields_of(cases, (k - 1) as nat) + pointer_fields(cases[k - 1].fields)
    }
}

/// The fields of value type of the first `k` cases, in order.
pub open spec fn scalar_fields_of(cases: Seq<BinTypeCaseView>, k: nat) -> Seq<Seq<char>>
    decreases k,
{
    if k == 0 || k > cases.len() {
        seq![]
    } else {
        scalar_fields_of(cases, (k - 1) as nat) + scalar_fields(cases[k - 1].fields)
    }
}

/// The number of pointer fields of an object of the type.
pub open spec fn pointer_count(ty: BinTypeView) -> nat {
    pointer_fields_of(ty.cases, ty.cases.len()).len()
}

/// The number of fields of all cases of the type.
pub open spec fn field_count(ty: BinTypeView) -> nat {
    pointer_count(ty) + scalar_fields_of(ty.cases, ty.cases.len()).len()
}

/// The fields of an object after its header and its tag: the fields of
/// heap type of all cases, then the fields of value type of all cases,
/// each group in the order of declaration.
pub open spec fn ordered_fields(ty: BinTypeView) -> Seq<Seq<char>> {
    pointer_fields_of(ty.cases, ty.cases.len()) + scalar_fields_of(ty.cases, ty.cases.len())
}

/// The slot of field `j` of case `k` in an object with `header` header
/// fields: the header comes first, then the tag, then the pointer fields,
/// then the others.
pub open spec fn field_slot(header: nat, ty: BinTypeView, k: int, j: int) -> nat {
    let fields = ty.cases[k].fields;
    if is_user_type(fields[j]) {
        1 + header + pointer_fields_of(ty.cases, k as nat).len() + pointer_fields(
            fields.take(j),
        ).len()
    } else {
        1 + header + pointer_count(ty) + scalar_fields_of(ty.cases, k as nat).len()
            + scalar_fields(fields.take(j)).len()
    }
}

/// Whether the type can be laid out: every slot can be addressed, and
/// the tag can hold the number of every case and the number of pointer
/// fields.
pub open spec fn layout_fits(header: nat, ty: BinTypeView) -> bool {
    &&& 1 + header + field_count(ty) <= MAX_SLOTS
    &&& pointer_count(ty) < TAG_LIMIT
    &&& ty.cases.len() <= TAG_LIMIT
}

/// The tag of an object of case number `k`: the number of the case, and
/// above it the number of pointer fields of the type.
pub open spec fn case_tag(ty: BinTypeView, k: int) -> nat {
    (k + pointer_count(ty) * TAG_LIMIT) as nat
}

/// What code generation needs to know of the case `case` of the type `ty`
/// in an object with `header` header fields: the tag, the slot of each
/// field of the case, and the slots of all pointer fields of the type.
pub open spec fn case_layout(
    types: Seq<(Seq<char>, BinTypeView)>,
    header: nat,
    ty: Seq<char>,
    case: Seq<char>,
) -> Result<(u64, Seq<u64>, Seq<u64>), CodegenErrorView> {
    match lookup(types, ty) {
        None => Err(CodegenErrorView::TypeNotFound(ty)),
        Some(def) => if !layout_fits(header, def) {
            Err(CodegenErrorView::LayoutTooLarge(ty))
        } else {
            match case_position(def.cases, case) {
                None => Err(CodegenErrorView::CaseNotFound { ty, case }),
                Some(k) => Ok(
                    (
                        case_tag(def, k) as u64,
                        Seq::new(
                            def.cases[k].fields.len(),
                            |j: int| field_slot(header, def, k, j) as u64,
                        ),
                        Seq::new(pointer_count(def), |i: int| (1 + header + i) as u64),
                    ),
                ),
            }
        },
    }
}

/// A longer prefix of the fields holds no fewer fields of either kind,
/// and a field adds one to the count of its own kind.
pub proof fn lemma_fields_prefix(fields: Seq<Seq<char>>, i: int, j: int)
    requires
        0 <= i <= j <= fields.len(),
    ensures
        pointer_fields(fields.take(i)).len() <= pointer_fields(fields.take(j)).len(),
        scalar_fields(fields.take(i)).len() <= scalar_fields(fields.take(j)).len(),
        i < j && is_user_type(fields[i]) ==> pointer_fields(fields.take(i)).len()
            < pointer_fields(fields.take(j)).len(),
        i < j && !is_user_type(fields[i]) ==> scalar_fields(fields.take(i)).len()
            < scalar_fields(fields.take(j)).len(),
    decreases j - i,
{
    if i < j {
        assert(fields.take(j).drop_last() =~= fields.take(j - 1));
        assert(fields.take(j).last() == fields[j - 1]);
        lemma_fields_prefix(fields, i, j - 1);
    }
}

/// The first cases hold no more fields of either kind than more cases.
pub proof fn lemma_cases_prefix(cases: Seq<BinTypeCaseView>, i: nat, j: nat)
    requires
        i <= j <= cases.len(),
    ensures
        pointer_fields_of(cases, i).len() <= pointer_fields_of(cases, j).len(),
        scalar_fields_of(cases, i).len() <= scalar_fields_of(cases, j).len(),
        i < j ==> pointer_fields_of(cases, i).len() + pointer_fields(cases[i as int].fields).len()
            <= pointer_fields_of(cases, j).len(),
        i < j ==> scalar_fields_of(cases, i).len() + scalar_fields(cases[i as int].fields).len()
            <= scalar_fields_of(cases, j).len(),
    decreases j - i,
{
    if i < j {
        lemma_cases_prefix(cases, i, (j - 1) as nat);
    }
}

/// Counts the fields of heap type and of value type among the first
/// `upto` of `fields`.
fn count_kinds(fields: &Vec<String>, upto: usize) -> (r: (usize, usize))
    requires
        upto <= fields.len(),
    ensures
        r.0 == pointer_fields(fields.deep_view().take(upto as int)).len(),
        r.1 == scalar_fields(fields.deep_view().take(upto as int)).len(),
        r.0 + r.1 == upto,
{
    let ghost all = fields.deep_view();
    let mut pointers: usize = 0;
    let mut scalars: usize = 0;
    let mut j: usize = 0;
    while j < upto
        invariant
            j <= upto <= fields.len(),
            all == fields.deep_view(),
            pointers == pointer_fields(all.take(j as int)).len(),
            scalars == scalar_fields(all.take(j as int)).len(),
            pointers + scalars == j,
        decreases upto - j,
    {
        proof {
            assert(all.take(j + 1).drop_last() =~= all.take(j as int));
            assert(all.take(j + 1).last() == fields[j as int]@);
        }
        if is_user_type_name(fields[j].as_str()) {
            pointers += 1;
        } else {
            scalars += 1;
        }
        j += 1;
    }
    (pointers, scalars)
}

/// Counts the fields of heap type and of value type of the first `upto`
/// cases, unless they are more than an object can hold.
fn tally(cases: &Vec<BinTypeCase>, upto: usize) -> (r: Option<(u64, u64)>)
    requires
        upto <= cases.len(),
    ensures
        match r {
            Some((pointers, scalars)) => pointers == pointer_fields_of(
                cases.deep_view(),
                upto as nat,
            ).len() && scalars == scalar_fields_of(cases.deep_view(), upto as nat).len()
                && pointers + scalars <= MAX_SLOTS,
            None => pointer_fields_of(cases.deep_view(), upto as nat).len() + scalar_fields_of(
                cases.deep_view(),
                upto as nat,
            ).len() > MAX_SLOTS,
        },
{
    let ghost all = cases.deep_view();
    let mut pointers: u64 = 0;
    let mut scalars: u64 = 0;
    let mut i: usize = 0;
    while i < upto
        invariant
            i <= upto <= cases.len(),
            all == cases.deep_view(),
            pointers == pointer_fields_of(all, i as nat).len(),
            scalars == scalar_fields_of(all, i as nat).len(),
            pointers + scalars <= MAX_SLOTS,
        decreases upto - i,
    {
        let fields = &cases[i].fields;
        let (p, s) = count_kinds(fields, fields.len());
        proof {
            assert(fields.deep_view().take(fields.len() as int) =~= fields.deep_view());
            assert(all[i as int].fields == fields.deep_view());
            lemma_cases_prefix(all, (i + 1) as nat, upto as nat);
        }
        if fields.len() as u64 > MAX_SLOTS - (pointers + scalars) {
            return None;
        }
        pointers = pointers + p as u64;
        scalars = scalars + s as u64;
        i += 1;
    }
    Some((pointers, scalars))
}

/// Computes what code generation needs of the case `case` of the type
/// `ty`: the tag of the case, the slot of each of its fields, and the
/// slots of all pointer fields of the type.
pub fn get_case_id_case_indices_pointer_indices<Gc: GC>(
    binary: &Binary,
    ty: &String,
    case: &str,
) -> (r: Result<(u64, Vec<u64>, Vec<u64>), CodegenError>)
    ensures
        outcome(r) == case_layout(binary.types.deep_view(), Gc::header().len(), ty@, case@),
{
    let def_index = match find_index(&binary.types, ty) {
        None => {
            return Err(CodegenError::TypeNotFound(ty.clone()));
        },
        Some(i) => i,
    };
    let type_def = &binary.types[def_index].1;
    let ghost def = type_def.deep_view();
    let ghost cases = def.cases;
    assert(binary.types.deep_view()[def_index as int].1 == def);
    let header_length = Gc::get_type_header_length();
    let ghost header = Gc::header().len();
    let (type_pointers_count, scalars) = match tally(&type_def.cases, type_def.cases.len()) {
        None => {
            return Err(CodegenError::LayoutTooLarge(ty.clone()));
        },
        Some(counts) => counts,
    };
    let used = type_pointers_count + scalars;
    if used >= MAX_SLOTS || header_length > MAX_SLOTS - 1 - used {
        return Err(CodegenError::LayoutTooLarge(ty.clone()));
    }
    if type_pointers_count >= TAG_LIMIT || type_def.cases.len() as u64 > TAG_LIMIT {
        return Err(CodegenError::LayoutTooLarge(ty.clone()));
    }
    assert(layout_fits(header, def));
    let case_index = match find_case_index(&type_def.cases, case) {
        None => {
            return Err(CodegenError::CaseNotFound { ty: ty.clone(), case: case.to_owned() });
        },
        Some(k) => k,
    };
    proof {
        lemma_cases_prefix(cases, case_index as nat, cases.len());
    }
    let (pointers_before, scalars_before) = match tally(&type_def.cases, case_index) {
        None => {
            assert(false);
            (0, 0)
        },
        Some(counts) => counts,
    };
    let fields = &type_def.cases[case_index].fields;
    let ghost names = fields.deep_view();
    assert(cases[case_index as int].fields == names);
    let mut case_field_indices: Vec<u64> = Vec::new();
    let mut pointer_slot: u64 = 1 + header_length + pointers_before;
    let mut scalar_slot: u64 = 1 + header_length + type_pointers_count + scalars_before;
    let mut j: usize = 0;
    assert(names.take(0) =~= Seq::<Seq<char>>::empty());
    while j < fields.len()
        invariant
            j <= fields.len(),
            names == fields.deep_view(),
            case_index < cases.len(),
            cases[case_index as int].fields == names,
            def.cases == cases,
            layout_fits(header, def),
            header == header_length,
            type_pointers_count == pointer_count(def),
            pointers_before == pointer_fields_of(cases, case_index as nat).len(),
            scalars_before == scalar_fields_of(cases, case_index as nat).len(),
            pointer_slot == 1 + header + pointers_before + pointer_fields(
                names.take(j as int),
            ).len(),
            scalar_slot == 1 + header + type_pointers_count + scalars_before + scalar_fields(
                names.take(j as int),
            ).len(),
            case_field_indices.len() == j,
            forall|i: int|
                0 <= i < j ==> (#[trigger] case_field_indices[i]) == field_slot(
                    header,
                    def,
                    case_index as int,
                    i,
                ) as u64,
        decreases fields.len() - j,
    {
        proof {
            assert(names.take(j + 1).drop_last() =~= names.take(j as int));
            assert(names.take(j + 1).last() == names[j as int]);
            lemma_fields_prefix(names, j + 1, names.len() as int);
            assert(names.take(names.len() as int) =~= names);
            lemma_cases_prefix(cases, case_index as nat, cases.len());
        }
        if is_user_type_name(fields[j].as_str()) {
            case_field_indices.push(pointer_slot);
            pointer_slot += 1;
        } else {
            case_field_indices.push(scalar_slot);
            scalar_slot += 1;
        }
        j += 1;
    }
    let mut type_pointer_indices: Vec<u64> = Vec::new();
    let mut i: u64 = 0;
    while i < type_pointers_count
        invariant
            i <= type_pointers_count,
            1 + header_length + type_pointers_count <= MAX_SLOTS,
            type_pointer_indices.len() == i,
            forall|n: int|
                0 <= n < i ==> (#[trigger] type_pointer_indices[n]) == (1 + header_length
                    + n) as u64,
        decreases type_pointers_count - i,
    {
        type_pointer_indices.push(1 + header_length + i);
        i += 1;
    }
    let index = case_index as u64;
    assert(index < 0x1_0000 && type_pointers_count < 0x1_0000 ==> (index | (type_pointers_count
        << 16)) == index + type_pointers_count * 0x1_0000) by (bit_vector);
    let tag = index | (type_pointers_count << 16);
    proof {
        assert(tag == case_tag(def, case_index as int) as u64);
        assert(case_field_indices.deep_view() =~= Seq::new(
            names.len(),
            |j: int| field_slot(header, def, case_index as int, j) as u64,
        ));
        assert(type_pointer_indices.deep_view() =~= Seq::new(
            pointer_count(def),
            |i: int| (1 + header + i) as u64,
        ));
    }
    Ok((tag, case_field_indices, type_pointer_indices))
}

/// Step `i` of giving the fields `fields` their target types.
pub open spec fn field_typer(
    structs: Seq<(Seq<char>, Seq<IrTypeView>)>,
    fields: Seq<Seq<char>>,
) -> spec_fn(int) -> Result<IrTypeView, CodegenErrorView> {
    |i: int| ir_type(structs, fields[i])
}

/// The target types of the fields `fields`, in order.
pub open spec fn field_types(
    structs: Seq<(Seq<char>, Seq<IrTypeView>)>,
    fields: Seq<Seq<char>>,
) -> Result<Seq<IrTypeView>, CodegenErrorView> {
    try_collect(fields.len(), field_typer(structs, fields))
}

/// The layout of an object of the type `def`: the header of the strategy,
/// the tag of 32 bits, every field of heap type of every case, then every
/// field of value type of every case, each group in declaration order.
pub open spec fn struct_body(
    structs: Seq<(Seq<char>, Seq<IrTypeView>)>,
    header: Seq<IrTypeView>,
    def: BinTypeView,
) -> Result<Seq<IrTypeView>, CodegenErrorView> {
    match field_types(structs, pointer_fields_of(def.cases, def.cases.len())) {
        Err(e) => Err(e),
        Ok(pointers) => match field_types(
            structs,
            scalar_fields_of(def.cases, def.cases.len()),
        ) {
            Err(e) => Err(e),
            Ok(scalars) => Ok(header + seq![IrTypeView::Int(32)] + pointers + scalars),
        },
    }
}

/// The aggregates of a program before their layouts are known: one per
/// type, in order, still without fields.
pub open spec fn declared_structs(types: Seq<(Seq<char>, BinTypeView)>) -> Seq<
    (Seq<char>, Seq<IrTypeView>),
> {
    Seq::new(types.len(), |i: int| (types[i].0, Seq::<IrTypeView>::empty()))
}

/// Step `i` of laying out the types `types`.
pub open spec fn struct_definer(
    types: Seq<(Seq<char>, BinTypeView)>,
    header: Seq<IrTypeView>,
) -> spec_fn(int) -> Result<(Seq<char>, Seq<IrTypeView>), CodegenErrorView> {
    |i: int|
        match struct_body(declared_structs(types), header, types[i].1) {
            Err(e) => Err(e),
            Ok(body) => Ok((types[i].0, body)),
        }
}

/// The layouts of all types of a program under a strategy with the
/// header `header`. It is a function of the types and of the header
/// alone.
pub open spec fn struct_table(
    types: Seq<(Seq<char>, BinTypeView)>,
    header: Seq<IrTypeView>,
) -> Result<Seq<(Seq<char>, Seq<IrTypeView>)>, CodegenErrorView> {
    try_collect(types.len(), struct_definer(types, header))
}

/// Gathers the fields of heap type, or those of value type, of all cases.
fn gather_fields(cases: &Vec<BinTypeCase>, pointers: bool) -> (r: Vec<String>)
    ensures
        r.deep_view() == if pointers {
            pointer_fields_of(cases.deep_view(), cases.len() as nat)
        } else {
            scalar_fields_of(cases.deep_view(), cases.len() as nat)
        },
{
    let ghost all = cases.deep_view();
    let mut gathered: Vec<String> = Vec::new();
    let mut i: usize = 0;
    assert(gathered.deep_view() =~= Seq::<Seq<char>>::empty());
    while i < cases.len()
        invariant
            i <= cases.len(),
            all == cases.deep_view(),
            gathered.deep_view() == if pointers {
                pointer_fields_of(all, i as nat)
            } else {
                scalar_fields_of(all, i as nat)
            },
        decreases cases.len() - i,
    {
        let fields = &cases[i].fields;
        let ghost names = fields.deep_view();
        let ghost before = gathered.deep_view();
        let mut j: usize = 0;
        assert(names.take(0) =~= Seq::<Seq<char>>::empty());
        assert(gathered.deep_view() =~= before + Seq::<Seq<char>>::empty());
        while j < fields.len()
            invariant
                j <= fields.len(),
                names == fields.deep_view(),
                gathered.deep_view() == before + if pointers {
                    pointer_fields(names.take(j as int))
                } else {
                    scalar_fields(names.take(j as int))
                },
            decreases fields.len() - j,
        {
            proof {
                assert(names.take(j + 1).drop_last() =~= names.take(j as int));
                assert(names.take(j + 1).last() == names[j as int]);
            }
            let ghost so_far = gathered.deep_view();
            if is_user_type_name(fields[j].as_str()) == pointers {
                gathered.push(fields[j].clone());
                proof {
                    assert(gathered.deep_view() =~= so_far.push(names[j as int]));
                    if pointers {
                        assert(so_far.push(names[j as int]) =~= before + pointer_fields(
                            names.take(j + 1),
                        ));
                    } else {
                        assert(so_far.push(names[j as int]) =~= before + scalar_fields(
                            names.take(j + 1),
                        ));
                    }
                }
            }
            j += 1;
        }
        proof {
            assert(names.take(fields.len() as int) =~= names);
            assert(all[i as int].fields == names);
        }
        i += 1;
    }
    gathered
}

/// Gives each of `fields` its target type.
pub fn types_of_fields(llvm_structs: &Vec<(String, Vec<IrType>)>, fields: &Vec<String>) -> (r: Result<
    Vec<IrType>,
    CodegenError,
>)
    ensures
        outcome(r) == field_types(llvm_structs.deep_view(), fields.deep_view()),
{
    let ghost step = field_typer(llvm_structs.deep_view(), fields.deep_view());
    let mut types: Vec<IrType> = Vec::new();
    let mut i: usize = 0;
    assert(types.deep_view() =~= Seq::<IrTypeView>::empty());
    while i < fields.len()
        invariant
            i <= fields.len(),
            step == field_typer(llvm_structs.deep_view(), fields.deep_view()),
            try_collect(i as nat, step) == Ok::<Seq<IrTypeView>, CodegenErrorView>(
                types.deep_view(),
            ),
        decreases fields.len() - i,
    {
        match type_to_llvm_type(llvm_structs, fields[i].as_str()) {
            Err(e) => {
                proof {
                    lemma_try_collect_error(fields.len() as nat, step, (i + 1) as nat);
                }
                return Err(e);
            },
            Ok(ty) => {
                let ghost before = types.deep_view();
                types.push(ty);
                assert(types.deep_view() =~= before.push(ty.deep_view()));
            },
        }
        i += 1;
    }
    Ok(types)
}

/// Lays out the heap objects of every type of the program for the
/// strategy `Gc`.
pub fn create_structs<Gc: GC>(binary: &Binary) -> (r: Result<
    Vec<(String, Vec<IrType>)>,
    CodegenError,
>)
    ensures
        outcome(r) == struct_table(binary.types.deep_view(), Gc::header()),
{
    let ghost types = binary.types.deep_view();
    let mut declared: Vec<(String, Vec<IrType>)> = Vec::new();
    let mut n: usize = 0;
    while n < binary.types.len()
        invariant
            n <= binary.types.len(),
            types == binary.types.deep_view(),
            declared.len() == n,
            forall|j: int|
                0 <= j < n ==> (#[trigger] declared.deep_view()[j]) == declared_structs(types)[j],
        decreases binary.types.len() - n,
    {
        let ghost before = declared.deep_view();
        let empty: Vec<IrType> = Vec::new();
        assert(empty.deep_view() =~= Seq::<IrTypeView>::empty());
        declared.push((binary.types[n].0.clone(), empty));
        assert(declared.deep_view() =~= before.push(
            (binary.types[n as int].0@, Seq::<IrTypeView>::empty()),
        ));
        n += 1;
    }
    assert(declared.deep_view() =~= declared_structs(types));
    let ghost step = struct_definer(types, Gc::header());
    let mut ret: Vec<(String, Vec<IrType>)> = Vec::new();
    let mut i: usize = 0;
    assert(ret.deep_view() =~= Seq::<(Seq<char>, Seq<IrTypeView>)>::empty());
    while i < binary.types.len()
        invariant
            i <= binary.types.len(),
            types == binary.types.deep_view(),
            declared.deep_view() == declared_structs(types),
            step == struct_definer(types, Gc::header()),
            try_collect(i as nat, step) == Ok::<
                Seq<(Seq<char>, Seq<IrTypeView>)>,
                CodegenErrorView,
            >(ret.deep_view()),
        decreases binary.types.len() - i,
    {
        let name = &binary.types[i].0;
        let t = &binary.types[i].1;
        assert(types[i as int] == (name@, t.deep_view()));
        let mut fields = Gc::get_type_header();
        let ghost header = fields.deep_view();
        fields.push(IrType::Int(32));
        assert(fields.deep_view() =~= header + seq![IrTypeView::Int(32)]);
        // First the fields of heap type,
        let mut pointers = match types_of_fields(&declared, &gather_fields(&t.cases, true)) {
            Err(e) => {
                proof {
                    lemma_try_collect_error(binary.types.len() as nat, step, (i + 1) as nat);
                }
                return Err(e);
            },
            Ok(p) => p,
        };
        // then the fields of value type.
        let mut scalars = match types_of_fields(&declared, &gather_fields(&t.cases, false)) {
            Err(e) => {
                proof {
                    lemma_try_collect_error(binary.types.len() as nat, step, (i + 1) as nat);
                }
                return Err(e);
            },
            Ok(s) => s,
        };
        let ghost pointer_types = pointers.deep_view();
        let ghost scalar_types = scalars.deep_view();
        fields.append(&mut pointers);
        assert(fields.deep_view() =~= header + seq![IrTypeView::Int(32)] + pointer_types);
        fields.append(&mut scalars);
        assert(fields.deep_view() =~= header + seq![IrTypeView::Int(32)] + pointer_types
            + scalar_types);
        let ghost before = ret.deep_view();
        ret.push((name.clone(), fields));
        assert(ret.deep_view() =~= before.push((name@, fields.deep_view())));
        i += 1;
    }
    Ok(ret)
}

/// Emits the size of an object of the type `ty`, which must have a
/// layout, and returns the handle on it.
pub fn get_struct_size(
    builder: &mut Builder,
    llvm_structs: &Vec<(String, Vec<IrType>)>,
    ty: &String,
) -> (r: Result<Value, CodegenError>)
    ensures
        match r {
            Ok(v) => {
                &&& lookup(llvm_structs.deep_view(), ty@) is Some
                &&& final(builder).deep_view() == old(builder).deep_view().emit(
                    InstrView::SizeOf { aggregate: ty@ },
                )
                &&& v == old(builder).deep_view().next_value()
            },
            Err(e) => {
                &&& lookup(llvm_structs.deep_view(), ty@) is None
                &&& e.deep_view() == CodegenErrorView::StructNotFound(ty@)
                &&& final(builder).deep_view() == old(builder).deep_view()
            },
        },
{
    match find_index(llvm_structs, ty) {
        None => Err(CodegenError::StructNotFound(ty.clone())),
        Some(_) => Ok(builder.emit(Instr::SizeOf { aggregate: ty.clone() })),
    }
}

/// The layout is reproducible: it is a function of the types and of the
/// header of the strategy alone. Two strategies with the same header lay
/// every type out alike, field for field, and give every case the same
/// tag and the same slots.
pub proof fn lemma_layout_reproducible<First: GC, Second: GC>(
    types: Seq<(Seq<char>, BinTypeView)>,
    ty: Seq<char>,
    case: Seq<char>,
)
    requires
        First::header() == Second::header(),
    ensures
        struct_table(types, First::header()) == struct_table(types, Second::header()),
        case_layout(types, First::header().len(), ty, case) == case_layout(
            types,
            Second::header().len(),
            ty,
            case,
        ),
{
}

/// The pointer field at a position among the fields is the one at its
/// rank among the pointer fields, and likewise a field of value type.
proof fn lemma_field_rank(fields: Seq<Seq<char>>, j: int)
    requires
        0 <= j < fields.len(),
    ensures
        is_user_type(fields[j]) ==> pointer_fields(fields.take(j)).len() < pointer_fields(
            fields,
        ).len() && pointer_fields(fields)[pointer_fields(fields.take(j)).len() as int]
            == fields[j],
        !is_user_type(fields[j]) ==> scalar_fields(fields.take(j)).len() < scalar_fields(
            fields,
        ).len() && scalar_fields(fields)[scalar_fields(fields.take(j)).len() as int]
            == fields[j],
    decreases fields.len(),
{
    if j == fields.len() - 1 {
        assert(fields.take(j) =~= fields.drop_last());
    } else {
        lemma_field_rank(fields.drop_last(), j);
        assert(fields.drop_last().take(j) =~= fields.take(j));
    }
}

/// The fields of the first cases come first among the fields of more
/// cases.
proof fn lemma_cases_extend(cases: Seq<BinTypeCaseView>, i: nat, j: nat)
    requires
        i <= j <= cases.len(),
    ensures
        pointer_fields_of(cases, i).len() <= pointer_fields_of(cases, j).len(),
        scalar_fields_of(cases, i).len() <= scalar_fields_of(cases, j).len(),
        forall|n: int|
            0 <= n < pointer_fields_of(cases, i).len() ==> pointer_fields_of(cases, j)[n]
                == pointer_fields_of(cases, i)[n],
        forall|n: int|
            0 <= n < scalar_fields_of(cases, i).len() ==> scalar_fields_of(cases, j)[n]
                == scalar_fields_of(cases, i)[n],
    decreases j - i,
{
    if i < j {
        lemma_cases_extend(cases, i, (j - 1) as nat);
    }
}

/// Construction and projection agree on the slot of a field, and the slot
/// holds that field: field `j` of case `k` lies after the header and the
/// tag, among the pointer fields exactly where it is on the heap, and the
/// layout has the field's own type at its slot.
pub proof fn lemma_slot_holds_field(header: nat, ty: BinTypeView, k: int, j: int)
    requires
        0 <= k < ty.cases.len(),
        0 <= j < ty.cases[k].fields.len(),
    ensures
        1 + header <= field_slot(header, ty, k, j) < 1 + header + field_count(ty),
        is_user_type(ty.cases[k].fields[j]) <==> field_slot(header, ty, k, j) < 1 + header
            + pointer_count(ty),
        ordered_fields(ty)[field_slot(header, ty, k, j) - 1 - header] == ty.cases[k].fields[j],
{
    let fields = ty.cases[k].fields;
    let n = ty.cases.len();
    lemma_field_rank(fields, j);
    lemma_cases_extend(ty.cases, (k + 1) as nat, n);
    lemma_cases_extend(ty.cases, k as nat, (k + 1) as nat);
    let pointers = pointer_fields_of(ty.cases, n);
    let scalars = scalar_fields_of(ty.cases, n);
    if is_user_type(fields[j]) {
        let rank = pointer_fields_of(ty.cases, k as nat).len() + pointer_fields(
            fields.take(j),
        ).len();
        assert(pointer_fields_of(ty.cases, (k + 1) as nat)[rank as int] == fields[j]);
        assert(ordered_fields(ty)[rank as int] == pointers[rank as int]);
    } else {
        let rank = scalar_fields_of(ty.cases, k as nat).len() + scalar_fields(
            fields.take(j),
        ).len();
        assert(scalar_fields_of(ty.cases, (k + 1) as nat)[rank as int] == fields[j]);
        assert(ordered_fields(ty)[(pointers.len() + rank) as int] == scalars[rank as int]);
    }
}

/// No two fields of a type share a slot, whether they belong to one case
/// or to two.
pub proof fn lemma_slots_distinct(header: nat, ty: BinTypeView, k1: int, j1: int, k2: int, j2: int)
    requires
        0 <= k1 < ty.cases.len(),
        0 <= j1 < ty.cases[k1].fields.len(),
        0 <= k2 < ty.cases.len(),
        0 <= j2 < ty.cases[k2].fields.len(),
        k1 != k2 || j1 != j2,
    ensures
        field_slot(header, ty, k1, j1) != field_slot(header, ty, k2, j2),
{
    lemma_slot_holds_field(header, ty, k1, j1);
    lemma_slot_holds_field(header, ty, k2, j2);
    let f1 = ty.cases[k1].fields;
    let f2 = ty.cases[k2].fields;
    if is_user_type(f1[j1]) == is_user_type(f2[j2]) {
        if k1 == k2 {
            if j1 < j2 {
                lemma_fields_prefix(f1, j1, j2);
            } else {
                lemma_fields_prefix(f1, j2, j1);
            }
        } else if k1 < k2 {
            lemma_cases_prefix(ty.cases, k1 as nat, k2 as nat);
            lemma_fields_prefix(f1, j1, f1.len() as int);
            assert(f1.take(f1.len() as int) =~= f1);
        } else {
            lemma_cases_prefix(ty.cases, k2 as nat, k1 as nat);
            lemma_fields_prefix(f2, j2, f2.len() as int);
            assert(f2.take(f2.len() as int) =~= f2);
        }
    }
}

/// A type that can be laid out gives each of its cases a tag of its own,
/// from which the number of the case and the number of pointer fields can
/// be read back.
pub proof fn lemma_tags_distinct(header: nat, ty: BinTypeView, k1: int, k2: int)
    requires
        layout_fits(header, ty),
        0 <= k1 < ty.cases.len(),
        0 <= k2 < ty.cases.len(),
    ensures
        case_tag(ty, k1) % (TAG_LIMIT as nat) == k1,
        case_tag(ty, k1) / (TAG_LIMIT as nat) == pointer_count(ty),
        case_tag(ty, k1) <= MAX_SLOTS,
        k1 != k2 ==> case_tag(ty, k1) != case_tag(ty, k2),
{
    let n = pointer_count(ty);
    assert((k1 + n * 0x1_0000) % 0x1_0000 == k1 && (k1 + n * 0x1_0000) / 0x1_0000 == n) by (nonlinear_arith)
        requires
            0 <= k1 < 0x1_0000,
            0 <= n < 0x1_0000,
    ;
}

} // verus!
