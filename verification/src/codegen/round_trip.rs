//! What the code that builds an object leaves in it: the tag and the
//! fields that a test of the case and a read of a field find there.
use crate::binary::{case_position, case_table, BinTypeView, TypedExprView};
use crate::codegen::expression::{
    construction_code, field_address, least, loads_code, nulls_code, object_writes, params_code,
    stores_code, ParamSlot, Slots,
};
use crate::codegen::garbage_collection::{zero32, GC};
use crate::codegen::ir::{BuilderView, InstrView, Value};
use crate::codegen::CodegenContextView;
use crate::lookup::{lemma_lookup_index, lookup};
use crate::types::{
    case_layout, case_tag, field_slot, ir_type, layout_fits, lemma_slot_holds_field,
    lemma_slots_distinct, pointer_count,
};
use vstd::prelude::*;

verus! {

/// What was last stored to a slot of an object.
pub enum Written {
    /// Nothing was stored.
    Nothing,
    /// The null pointer.
    Null,
    /// This value.
    Stored(Value),
}

/// The object and the slot that `ptr` is the address of, where `ptr` is
/// the result of an instruction that takes the address of a slot.
pub open spec fn addressed(instrs: Seq<(usize, InstrView)>, ptr: Value) -> Option<(Value, u64)> {
    match ptr {
        Value::Inst(a) => if a < instrs.len() {
            match instrs[a as int].1 {
                InstrView::ElementPtr { ptr: object, indices, .. } => if indices.len() == 2
                    && indices[0] == zero32() {
                    match indices[1] {
                        Value::ConstInt { bits, value } => if bits == 32 {
                            Some((object, value))
                        } else {
                            None
                        },
                        _ => None,
                    }
                } else {
                    None
                },
                _ => None,
            }
        } else {
            None
        },
        _ => None,
    }
}

/// What the instructions from number `from` up to number `to` store last
/// to the slot `slot` of `object`.
pub open spec fn last_write(
    instrs: Seq<(usize, InstrView)>,
    from: nat,
    to: nat,
    object: Value,
    slot: u64,
) -> Written
    decreases to,
{
    if to <= from || to > instrs.len() {
        Written::Nothing
    } else {
        match instrs[to - 1].1 {
            InstrView::Store { value, ptr } => if addressed(instrs, ptr) == Some((object, slot)) {
                Written::Stored(value)
            } else {
                last_write(instrs, from, (to - 1) as nat, object, slot)
            },
            InstrView::StoreNull { ptr } => if addressed(instrs, ptr) == Some((object, slot)) {
                Written::Null
            } else {
                last_write(instrs, from, (to - 1) as nat, object, slot)
            },
            _ => last_write(instrs, from, (to - 1) as nat, object, slot),
        }
    }
}

/// The store that follows the address of number `at`: of the value of
/// position `k` where values are given, else of the null pointer.
pub open spec fn write_of(values: Option<Seq<Value>>, k: int, at: nat) -> InstrView {
    match values {
        Some(vs) => InstrView::Store { value: vs[k], ptr: Value::Inst(at as usize) },
        None => InstrView::StoreNull { ptr: Value::Inst(at as usize) },
    }
}

/// What `write_of` stores.
pub open spec fn written_by(values: Option<Seq<Value>>, k: int) -> Written {
    match values {
        Some(vs) => Written::Stored(vs[k]),
        None => Written::Null,
    }
}

/// From number `base` on, the instructions are `count` pairs of the
/// address of a slot of `object` and a store to it, the slots being
/// those of `slots` in order.
pub open spec fn pairs_at(
    instrs: Seq<(usize, InstrView)>,
    base: nat,
    object: Value,
    slots: Seq<u64>,
    values: Option<Seq<Value>>,
    count: nat,
) -> bool {
    &&& base + 2 * count <= instrs.len()
    &&& forall|k: int|
        0 <= k < count ==> (#[trigger] instrs[base + 2 * k]).1 == field_address(
            object,
            slots[k],
            "field_ptr"@,
        )
    &&& forall|k: int|
        0 <= k < count ==> (#[trigger] instrs[base + 2 * k + 1]).1 == write_of(
            values,
            k,
            (base + 2 * k) as nat,
        )
}

/// Stores to other slots do not change what a slot holds.
proof fn lemma_pairs_pass(
    instrs: Seq<(usize, InstrView)>,
    from: nat,
    base: nat,
    object: Value,
    slots: Seq<u64>,
    values: Option<Seq<Value>>,
    count: nat,
    slot: u64,
)
    requires
        from <= base,
        instrs.len() <= usize::MAX,
        pairs_at(instrs, base, object, slots, values, count),
        forall|k: int| 0 <= k < count ==> slots[k] != slot,
    ensures
        last_write(instrs, from, base + 2 * count, object, slot) == last_write(
            instrs,
            from,
            base,
            object,
            slot,
        ),
    decreases count,
{
    if count > 0 {
        let k = count - 1;
        let at = (base + 2 * k) as nat;
        assert(instrs[base + 2 * k].1 == field_address(object, slots[k], "field_ptr"@));
        assert(instrs[base + 2 * k + 1].1 == write_of(values, k, at));
        assert(addressed(instrs, Value::Inst(at as usize)) == Some((object, slots[k])));
        assert(last_write(instrs, from, (at + 2) as nat, object, slot) == last_write(
            instrs,
            from,
            (at + 1) as nat,
            object,
            slot,
        ));
        assert(last_write(instrs, from, (at + 1) as nat, object, slot) == last_write(
            instrs,
            from,
            at,
            object,
            slot,
        ));
        lemma_pairs_pass(instrs, from, base, object, slots, values, (count - 1) as nat, slot);
    }
}

/// A slot holds what the last store to it stored.
proof fn lemma_pairs_hit(
    instrs: Seq<(usize, InstrView)>,
    from: nat,
    base: nat,
    object: Value,
    slots: Seq<u64>,
    values: Option<Seq<Value>>,
    count: nat,
    j: int,
)
    requires
        from <= base,
        instrs.len() <= usize::MAX,
        pairs_at(instrs, base, object, slots, values, count),
        0 <= j < count,
        forall|k: int| j < k < count ==> slots[k] != slots[j],
    ensures
        last_write(instrs, from, base + 2 * count, object, slots[j]) == written_by(values, j),
    decreases count,
{
    let k = count - 1;
    let at = (base + 2 * k) as nat;
    assert(instrs[base + 2 * k].1 == field_address(object, slots[k], "field_ptr"@));
    assert(instrs[base + 2 * k + 1].1 == write_of(values, k, at));
    assert(addressed(instrs, Value::Inst(at as usize)) == Some((object, slots[k])));
    if j < k {
        assert(last_write(instrs, from, (at + 2) as nat, object, slots[j]) == last_write(
            instrs,
            from,
            (at + 1) as nat,
            object,
            slots[j],
        ));
        assert(last_write(instrs, from, (at + 1) as nat, object, slots[j]) == last_write(
            instrs,
            from,
            at,
            object,
            slots[j],
        ));
        lemma_pairs_hit(instrs, from, base, object, slots, values, (count - 1) as nat, j);
    }
}

/// The code that clears the pointer fields is one pair of address and
/// store per slot, after what was there.
proof fn lemma_nulls_shape(b: BuilderView, ptr: Value, slots: Seq<u64>, n: nat)
    requires
        n <= slots.len(),
    ensures
        nulls_code(b, ptr, slots, n).instrs.len() == b.instrs.len() + 2 * n,
        forall|i: int|
            0 <= i < b.instrs.len() ==> nulls_code(b, ptr, slots, n).instrs[i] == b.instrs[i],
        pairs_at(nulls_code(b, ptr, slots, n).instrs, b.instrs.len(), ptr, slots, None, n),
    decreases n,
{
    if n > 0 {
        lemma_nulls_shape(b, ptr, slots, (n - 1) as nat);
        let before = nulls_code(b, ptr, slots, (n - 1) as nat);
        let after = nulls_code(b, ptr, slots, n);
        let base = b.instrs.len();
        assert forall|k: int| 0 <= k < n implies (#[trigger] after.instrs[base + 2 * k]).1
            == field_address(ptr, slots[k], "field_ptr"@) && (#[trigger] after.instrs[base + 2 * k
            + 1]).1 == write_of(None, k, (base + 2 * k) as nat) by {
            if k < n - 1 {
                assert(after.instrs[base + 2 * k] == before.instrs[base + 2 * k]);
                assert(after.instrs[base + 2 * k + 1] == before.instrs[base + 2 * k + 1]);
            }
        }
    }
}

/// The code that stores the field values is one pair of address and
/// store per value, after what was there.
proof fn lemma_stores_shape(
    b: BuilderView,
    ptr: Value,
    values: Seq<Value>,
    slots: Seq<u64>,
    n: nat,
)
    requires
        n <= slots.len(),
        n <= values.len(),
    ensures
        stores_code(b, ptr, values, slots, n).instrs.len() == b.instrs.len() + 2 * n,
        forall|i: int|
            0 <= i < b.instrs.len() ==> stores_code(b, ptr, values, slots, n).instrs[i]
                == b.instrs[i],
        pairs_at(
            stores_code(b, ptr, values, slots, n).instrs,
            b.instrs.len(),
            ptr,
            slots,
            Some(values),
            n,
        ),
    decreases n,
{
    if n > 0 {
        lemma_stores_shape(b, ptr, values, slots, (n - 1) as nat);
        let before = stores_code(b, ptr, values, slots, (n - 1) as nat);
        let after = stores_code(b, ptr, values, slots, n);
        let base = b.instrs.len();
        assert forall|k: int| 0 <= k < n implies (#[trigger] after.instrs[base + 2 * k]).1
            == field_address(ptr, slots[k], "field_ptr"@) && (#[trigger] after.instrs[base + 2 * k
            + 1]).1 == write_of(Some(values), k, (base + 2 * k) as nat) by {
            if k < n - 1 {
                assert(after.instrs[base + 2 * k] == before.instrs[base + 2 * k]);
                assert(after.instrs[base + 2 * k + 1] == before.instrs[base + 2 * k + 1]);
            }
        }
    }
}

/// What is in an object once it is built.
///
/// After the code that writes an object of case number `k` of the type
/// `def`, the slot after the header holds the tag of the case; the slot
/// of every field of the case holds the value that was computed for that
/// field, unchanged by the stores that follow it; and every pointer slot
/// that is no field of the case holds the null pointer. So a test for the
/// case finds its tag, a read of a field finds the value the object was
/// built with, and a scan of the pointer slots finds nothing but fields
/// and nulls.
pub proof fn lemma_object_holds_what_it_was_built_with(
    with_header: BuilderView,
    heap_ptr: Value,
    header: nat,
    def: BinTypeView,
    k: int,
    values: Seq<Value>,
)
    requires
        layout_fits(header, def),
        0 <= k < def.cases.len(),
        values.len() == def.cases[k].fields.len(),
        object_writes(
            with_header,
            heap_ptr,
            header,
            case_tag(def, k) as u64,
            values,
            Seq::new(def.cases[k].fields.len(), |j: int| field_slot(header, def, k, j) as u64),
            Seq::new(pointer_count(def), |i: int| (1 + header + i) as u64),
        ).instrs.len() <= usize::MAX,
    ensures
        ({
            let tag = case_tag(def, k) as u64;
            let field_slots = Seq::new(
                def.cases[k].fields.len(),
                |j: int| field_slot(header, def, k, j) as u64,
            );
            let pointer_slots = Seq::new(pointer_count(def), |i: int| (1 + header + i) as u64);
            let after = object_writes(
                with_header,
                heap_ptr,
                header,
                tag,
                values,
                field_slots,
                pointer_slots,
            );
            let from = with_header.instrs.len();
            let to = after.instrs.len();
            &&& last_write(after.instrs, from, to, heap_ptr, header as u64) == Written::Stored(
                Value::ConstInt { bits: 32, value: tag },
            )
            &&& forall|j: int|
                0 <= j < values.len() ==> last_write(
                    after.instrs,
                    from,
                    to,
                    heap_ptr,
                    #[trigger] field_slots[j],
                ) == Written::Stored(values[j])
            &&& forall|i: int|
                0 <= i < pointer_slots.len() && (forall|j: int|
                    0 <= j < field_slots.len() ==> field_slots[j] != pointer_slots[i])
                    ==> last_write(after.instrs, from, to, heap_ptr, #[trigger] pointer_slots[i])
                    == Written::Null
        }),
{
    let tag = case_tag(def, k) as u64;
    let field_slots = Seq::new(
        def.cases[k].fields.len(),
        |j: int| field_slot(header, def, k, j) as u64,
    );
    let pointer_slots = Seq::new(pointer_count(def), |i: int| (1 + header + i) as u64);
    let tag_at = field_address(heap_ptr, header as u64, "case_id"@);
    let store_tag = InstrView::Store {
        value: Value::ConstInt { bits: 32, value: tag },
        ptr: with_header.next_value(),
    };
    let tagged = with_header.emit(tag_at).emit(store_tag);
    let cleared = nulls_code(tagged, heap_ptr, pointer_slots, pointer_slots.len());
    let count = least(values.len(), field_slots.len());
    let after = stores_code(cleared, heap_ptr, values, field_slots, count);
    let from = with_header.instrs.len();
    let mid = tagged.instrs.len();
    let base = cleared.instrs.len();
    let to = after.instrs.len();
    lemma_nulls_shape(tagged, heap_ptr, pointer_slots, pointer_slots.len());
    lemma_stores_shape(cleared, heap_ptr, values, field_slots, count);
    // The instructions of the earlier parts are in the later ones.
    assert(pairs_at(after.instrs, mid, heap_ptr, pointer_slots, None, pointer_slots.len())) by {
        assert(mid + 2 * pointer_slots.len() <= after.instrs.len());
        assert forall|n: int| 0 <= n < pointer_slots.len() implies (#[trigger] after.instrs[mid + 2
            * n]).1 == field_address(heap_ptr, pointer_slots[n], "field_ptr"@) by {
            assert(after.instrs[mid + 2 * n] == cleared.instrs[mid + 2 * n]);
        }
        assert forall|n: int| 0 <= n < pointer_slots.len() implies (#[trigger] after.instrs[mid + 2
            * n + 1]).1 == write_of(None, n, (mid + 2 * n) as nat) by {
            assert(after.instrs[mid + 2 * n + 1] == cleared.instrs[mid + 2 * n + 1]);
        }
    }
    assert(after.instrs[from as int] == cleared.instrs[from as int]);
    assert(cleared.instrs[from as int] == tagged.instrs[from as int]);
    assert(after.instrs[from as int + 1] == cleared.instrs[from as int + 1]);
    assert(cleared.instrs[from as int + 1] == tagged.instrs[from as int + 1]);
    assert(after.instrs[from as int].1 == tag_at);
    assert(after.instrs[from as int + 1].1 == store_tag);
    assert(addressed(after.instrs, with_header.next_value()) == Some(
        (heap_ptr, header as u64),
    ));
    // Every slot of a field lies after the tag, and no two are the same.
    assert forall|j: int| 0 <= j < field_slots.len() implies field_slots[j] > header && (
    forall|n: int| 0 <= n < field_slots.len() && n != j ==> field_slots[n] != field_slots[j]) by {
        lemma_slot_holds_field(header, def, k, j);
        assert forall|n: int| 0 <= n < field_slots.len() && n != j implies field_slots[n]
            != field_slots[j] by {
            lemma_slot_holds_field(header, def, k, n);
            lemma_slots_distinct(header, def, k, n, k, j);
        }
    }
    // The tag.
    lemma_pairs_pass(
        after.instrs,
        from,
        base,
        heap_ptr,
        field_slots,
        Some(values),
        count,
        header as u64,
    );
    lemma_pairs_pass(
        after.instrs,
        from,
        mid,
        heap_ptr,
        pointer_slots,
        None,
        pointer_slots.len(),
        header as u64,
    );
    assert(last_write(after.instrs, from, mid, heap_ptr, header as u64) == Written::Stored(
        Value::ConstInt { bits: 32, value: tag },
    ));
    // The fields.
    assert forall|j: int| 0 <= j < values.len() implies last_write(
        after.instrs,
        from,
        to,
        heap_ptr,
        #[trigger] field_slots[j],
    ) == Written::Stored(values[j]) by {
        lemma_pairs_hit(after.instrs, from, base, heap_ptr, field_slots, Some(values), count, j);
    }
    // The pointer slots that are no fields of the case.
    assert forall|i: int|
        0 <= i < pointer_slots.len() && (forall|j: int|
            0 <= j < field_slots.len() ==> field_slots[j] != pointer_slots[i]) implies last_write(
        after.instrs,
        from,
        to,
        heap_ptr,
        #[trigger] pointer_slots[i],
    ) == Written::Null by {
        lemma_pairs_pass(
            after.instrs,
            from,
            base,
            heap_ptr,
            field_slots,
            Some(values),
            count,
            pointer_slots[i],
        );
        lemma_pairs_hit(
            after.instrs,
            from,
            mid,
            heap_ptr,
            pointer_slots,
            None,
            pointer_slots.len(),
            i,
        );
    }
}

/// Computing `n` arguments gives `n` values or slots.
proof fn lemma_params_len<Gc: GC>(
    cx: CodegenContextView,
    b: BuilderView,
    vars: Slots,
    sp: Value,
    params: Seq<TypedExprView>,
    n: nat,
)
    requires
        n <= params.len(),
        params_code::<Gc>(cx, b, vars, sp, params, n) is Ok,
    ensures
        params_code::<Gc>(cx, b, vars, sp, params, n)->Ok_0.1.len() == n,
    decreases n,
{
    if n > 0 {
        lemma_params_len::<Gc>(cx, b, vars, sp, params, (n - 1) as nat);
    }
}

/// Bringing `n` arguments back gives `n` values.
proof fn lemma_loads_len(b: BuilderView, slots: Seq<ParamSlot>, n: nat)
    requires
        n <= slots.len(),
    ensures
        loads_code(b, slots, n).1.len() == n,
    decreases n,
{
    if n > 0 {
        lemma_loads_len(b, slots, (n - 1) as nat);
    }
}

/// The values that the code of a construction stores to the fields: the
/// values of the field expressions, brought back after the allocation.
pub open spec fn constructed_values<Gc: GC>(
    cx: CodegenContextView,
    b: BuilderView,
    vars: Slots,
    sp: Value,
    ty: Seq<char>,
    fields: Seq<TypedExprView>,
) -> Seq<Value> {
    let (computed, slots, new_sp) = params_code::<Gc>(cx, b, vars, sp, fields, fields.len())->Ok_0;
    let sized = computed.emit(InstrView::SizeOf { aggregate: ty });
    let (allocated, raw) = Gc::allocation_code(cx, sized, computed.next_value(), new_sp)->Ok_0;
    let cast = allocated.emit(
        InstrView::BitCast {
            value: raw,
            ty: ir_type(cx.structs, ty)->Ok_0,
            name: ty + "*"@,
        },
    );
    loads_code(cast, slots, slots.len()).1
}

/// The number of instructions that the code of a construction emits
/// before it writes the tag.
pub open spec fn written_from<Gc: GC>(
    cx: CodegenContextView,
    b: BuilderView,
    vars: Slots,
    sp: Value,
    ty: Seq<char>,
    fields: Seq<TypedExprView>,
) -> nat {
    let (computed, slots, new_sp) = params_code::<Gc>(cx, b, vars, sp, fields, fields.len())->Ok_0;
    let sized = computed.emit(InstrView::SizeOf { aggregate: ty });
    let size = computed.next_value();
    let (allocated, raw) = Gc::allocation_code(cx, sized, size, new_sp)->Ok_0;
    let cast = allocated.emit(
        InstrView::BitCast {
            value: raw,
            ty: ir_type(cx.structs, ty)->Ok_0,
            name: ty + "*"@,
        },
    );
    let loaded = loads_code(cast, slots, slots.len()).0;
    Gc::header_code(loaded, allocated.next_value(), size).instrs.len()
}

/// Construction, test and projection agree.
///
/// The code that builds an object of the case `case` of the type `ty`
/// from as many values as the case has fields stores, under every
/// strategy, the tag of the case to the slot that a test of the case
/// reads, and the value of each field to the slot that a read of that
/// field of that case reads; no later instruction of the construction
/// stores to these slots again. The slots and the tag are those of
/// `case_layout`, which the code of the test and of the read use too.
pub proof fn lemma_construction_round_trip<Gc: GC>(
    cx: CodegenContextView,
    b: BuilderView,
    vars: Slots,
    sp: Value,
    ty: Seq<char>,
    case: Seq<char>,
    fields: Seq<TypedExprView>,
)
    requires
        construction_code::<Gc>(cx, b, vars, sp, ty, case, fields) is Ok,
        construction_code::<Gc>(cx, b, vars, sp, ty, case, fields)->Ok_0.0.instrs.len()
            <= usize::MAX,
        fields.len() == case_layout(cx.binary.types, Gc::header().len(), ty, case)->Ok_0.1.len(),
    ensures
        ({
            let (after, object) = construction_code::<Gc>(cx, b, vars, sp, ty, case, fields)->Ok_0;
            let (tag, field_slots, pointer_slots) = case_layout(
                cx.binary.types,
                Gc::header().len(),
                ty,
                case,
            )->Ok_0;
            let values = constructed_values::<Gc>(cx, b, vars, sp, ty, fields);
            let from = written_from::<Gc>(cx, b, vars, sp, ty, fields);
            let to = after.instrs.len();
            &&& values.len() == fields.len()
            &&& last_write(after.instrs, from, to, object, Gc::header().len() as u64)
                == Written::Stored(Value::ConstInt { bits: 32, value: tag })
            &&& forall|j: int|
                0 <= j < fields.len() ==> last_write(
                    after.instrs,
                    from,
                    to,
                    object,
                    #[trigger] field_slots[j],
                ) == Written::Stored(values[j])
            &&& forall|i: int|
                0 <= i < pointer_slots.len() && (forall|j: int|
                    0 <= j < field_slots.len() ==> field_slots[j] != pointer_slots[i])
                    ==> last_write(after.instrs, from, to, object, #[trigger] pointer_slots[i])
                    == Written::Null
        }),
{
    let header = Gc::header().len();
    let (computed, slots, new_sp) = params_code::<Gc>(cx, b, vars, sp, fields, fields.len())->Ok_0;
    lemma_params_len::<Gc>(cx, b, vars, sp, fields, fields.len());
    let sized = computed.emit(InstrView::SizeOf { aggregate: ty });
    let size = computed.next_value();
    let (allocated, raw) = Gc::allocation_code(cx, sized, size, new_sp)->Ok_0;
    let cast = allocated.emit(
        InstrView::BitCast {
            value: raw,
            ty: ir_type(cx.structs, ty)->Ok_0,
            name: ty + "*"@,
        },
    );
    let heap_ptr = allocated.next_value();
    lemma_loads_len(cast, slots, slots.len());
    let (loaded, values) = loads_code(cast, slots, slots.len());
    let with_header = Gc::header_code(loaded, heap_ptr, size);
    let def = lookup(cx.binary.types, ty)->0;
    let k = case_position(def.cases, case)->0;
    lemma_lookup_index(case_table(def.cases), case);
    lemma_object_holds_what_it_was_built_with(with_header, heap_ptr, header, def, k, values);
}

} // verus!
