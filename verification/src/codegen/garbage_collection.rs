//! The memory reclamation strategies. A strategy decides what header a
//! heap object carries and what code allocates, reads and gives up a
//! reference; nothing else in code generation knows which one is active.
use crate::codegen::build_in::BuildIn;
use crate::codegen::function::{call_code, create_func_call};
use crate::codegen::ir::{
    emitted, emitted_only, Builder, BuilderView, CodegenError, CodegenErrorView, Instr,
    InstrView, IrType, IrTypeView, Value,
};
use crate::codegen::{CodegenContext, CodegenContextView};
use crate::types::pointer_to;
use vstd::prelude::*;

verus! {

/// The constant zero of 32 bits.
pub open spec fn zero32() -> Value {
    Value::ConstInt { bits: 32, value: 0 }
}

/// The code of a call of the runtime symbol `symbol` whose result is not
/// used.
pub open spec fn runtime_call(
    cx: CodegenContextView,
    b: BuilderView,
    symbol: Seq<char>,
    params: Seq<Value>,
    sp: Value,
) -> Result<BuilderView, CodegenErrorView> {
    match call_code(cx, b, symbol, params, sp) {
        Err(e) => Err(e),
        Ok((after, _)) => Ok(after),
    }
}

/// Emits a call of a runtime symbol whose result is not used.
pub fn call_runtime(
    cc: &CodegenContext,
    builder: &mut Builder,
    symbol: &str,
    params: Vec<Value>,
    sp: Value,
) -> (r: Result<(), CodegenError>)
    ensures
        emitted_only(
            r,
            final(builder).deep_view(),
            runtime_call(cc.deep_view(), old(builder).deep_view(), symbol@, params@, sp),
        ),
{
    match create_func_call(cc, builder, &symbol.to_owned(), params, sp) {
        Err(e) => Err(e),
        Ok(_) => Ok(()),
    }
}

/// The code that hands `ptr`, as an untyped pointer, and the frame `sp`
/// to the runtime symbol `symbol`.
pub open spec fn pointer_hook(
    cx: CodegenContextView,
    b: BuilderView,
    symbol: Seq<char>,
    ptr: Value,
    sp: Value,
) -> Result<BuilderView, CodegenErrorView> {
    runtime_call(
        cx,
        b.emit(
            InstrView::BitCast {
                value: ptr,
                ty: IrTypeView::Pointer(Box::new(IrTypeView::Int(8))),
                name: "arc_count"@,
            },
        ),
        symbol,
        seq![b.next_value(), sp],
        Value::Absent,
    )
}

/// Emits the code that hands `ptr` and `sp` to a runtime symbol.
fn call_pointer_hook(
    cc: &CodegenContext,
    builder: &mut Builder,
    symbol: &str,
    ptr: Value,
    sp: Value,
) -> (r: Result<(), CodegenError>)
    ensures
        emitted_only(
            r,
            final(builder).deep_view(),
            pointer_hook(cc.deep_view(), old(builder).deep_view(), symbol@, ptr, sp),
        ),
{
    let heap_ptr = builder.emit(
        Instr::BitCast { value: ptr, ty: pointer_to(IrType::Int(8)), name: "arc_count".to_owned() },
    );
    let mut params: Vec<Value> = Vec::new();
    params.push(heap_ptr);
    params.push(sp);
    assert(params@ =~= seq![heap_ptr, sp]);
    call_runtime(cc, builder, symbol, params, Value::Absent)
}

/// The code of an allocation by the runtime symbol `symbol`: it is given
/// the size and the frame and returns the new object.
pub open spec fn allocation_by(
    cx: CodegenContextView,
    b: BuilderView,
    symbol: Seq<char>,
    size: Value,
    sp: Value,
) -> Result<(BuilderView, Value), CodegenErrorView> {
    call_code(cx, b, symbol, seq![size, sp], sp)
}

fn allocate_by(
    cc: &CodegenContext,
    builder: &mut Builder,
    symbol: &str,
    size: Value,
    sp: Value,
) -> (r: Result<Value, CodegenError>)
    ensures
        emitted(
            r,
            final(builder).deep_view(),
            allocation_by(cc.deep_view(), old(builder).deep_view(), symbol@, size, sp),
        ),
{
    let mut params: Vec<Value> = Vec::new();
    params.push(size);
    params.push(sp);
    assert(params@ =~= seq![size, sp]);
    create_func_call(cc, builder, &symbol.to_owned(), params, sp)
}

/// The address of the first header field of the object at `ptr`.
pub open spec fn header_address(ptr: Value, name: Seq<char>) -> InstrView {
    InstrView::ElementPtr { ptr, indices: seq![zero32(), zero32()], name }
}

fn emit_header_address(builder: &mut Builder, ptr: Value, name: &str) -> (r: Value)
    ensures
        final(builder).deep_view() == old(builder).deep_view().emit(header_address(ptr, name@)),
        r == old(builder).deep_view().next_value(),
{
    let zero = Value::ConstInt { bits: 32, value: 0 };
    let mut indices: Vec<Value> = Vec::new();
    indices.push(zero);
    indices.push(zero);
    assert(indices@ =~= seq![zero32(), zero32()]);
    builder.emit(Instr::ElementPtr { ptr, indices, name: name.to_owned() })
}

/// What a memory reclamation strategy has to say: the header of a heap
/// object, and the code for the start and the end of the heap, for an
/// allocation, and for taking and giving up a reference.
pub trait GC {
    /// The fields that every heap object starts with.
    spec fn header() -> Seq<IrTypeView>;

    /// The fields that every heap object starts with.
    fn get_type_header() -> (r: Vec<IrType>)
        ensures
            r.deep_view() == Self::header(),
    ;

    /// The number of header fields.
    fn get_type_header_length() -> (r: u64)
        ensures
            r == Self::header().len(),
    ;

    /// The code that fills the header of the new object at `ptr` of the
    /// size `size`.
    spec fn header_code(b: BuilderView, ptr: Value, size: Value) -> BuilderView;

    /// Emits the code that fills the header of a new object.
    fn init_header(builder: &mut Builder, ptr: Value, size: Value)
        ensures
            final(builder).deep_view() == Self::header_code(old(builder).deep_view(), ptr, size),
    ;

    /// The code that sets the heap up, once, before the program runs.
    spec fn heap_start_code(cx: CodegenContextView, b: BuilderView) -> Result<
        BuilderView,
        CodegenErrorView,
    >;

    /// Emits the code that sets the heap up.
    fn init_heap(cc: &CodegenContext, builder: &mut Builder) -> (r: Result<(), CodegenError>)
        ensures
            emitted_only(
                r,
                final(builder).deep_view(),
                Self::heap_start_code(cc.deep_view(), old(builder).deep_view()),
            ),
    ;

    /// The code that takes the heap down, once, after the program ran.
    spec fn heap_end_code(cx: CodegenContextView, b: BuilderView) -> Result<
        BuilderView,
        CodegenErrorView,
    >;

    /// Emits the code that takes the heap down.
    fn close_heap(cc: &CodegenContext, builder: &mut Builder) -> (r: Result<(), CodegenError>)
        ensures
            emitted_only(
                r,
                final(builder).deep_view(),
                Self::heap_end_code(cc.deep_view(), old(builder).deep_view()),
            ),
    ;

    /// The code that allocates an object of the size `size` in the frame
    /// `sp`, and the handle on the new object.
    spec fn allocation_code(cx: CodegenContextView, b: BuilderView, size: Value, sp: Value) -> Result<
        (BuilderView, Value),
        CodegenErrorView,
    >;

    /// Emits the code that allocates an object.
    fn type_allocation(
        cc: &CodegenContext,
        builder: &mut Builder,
        size: Value,
        current_sp: Value,
    ) -> (r: Result<Value, CodegenError>)
        ensures
            emitted(
                r,
                final(builder).deep_view(),
                Self::allocation_code(cc.deep_view(), old(builder).deep_view(), size, current_sp),
            ),
    ;

    /// The code that takes one more reference to the object at `ptr`.
    spec fn access_code(cx: CodegenContextView, b: BuilderView, ptr: Value, sp: Value) -> Result<
        BuilderView,
        CodegenErrorView,
    >;

    /// Emits the code that takes one more reference to an object.
    fn type_ptr_access(
        cc: &CodegenContext,
        builder: &mut Builder,
        ptr: Value,
        current_sp: Value,
    ) -> (r: Result<(), CodegenError>)
        ensures
            emitted_only(
                r,
                final(builder).deep_view(),
                Self::access_code(cc.deep_view(), old(builder).deep_view(), ptr, current_sp),
            ),
    ;

    /// The code that gives up one reference to the object at `ptr`.
    spec fn drop_code(cx: CodegenContextView, b: BuilderView, ptr: Value, sp: Value) -> Result<
        BuilderView,
        CodegenErrorView,
    >;

    /// Emits the code that gives up one reference to an object.
    fn type_ptr_drop(
        cc: &CodegenContext,
        builder: &mut Builder,
        ptr: Value,
        current_sp: Value,
    ) -> (r: Result<(), CodegenError>)
        ensures
            emitted_only(
                r,
                final(builder).deep_view(),
                Self::drop_code(cc.deep_view(), old(builder).deep_view(), ptr, current_sp),
            ),
    ;
}

/// Allocation from an arena that is never reclaimed: no header, and
/// nothing to do when a reference is taken or given up.
pub struct Spill {}

impl GC for Spill {
    open spec fn header() -> Seq<IrTypeView> {
        seq![]
    }

    fn get_type_header() -> (r: Vec<IrType>) {
        let r: Vec<IrType> = Vec::new();
        assert(r.deep_view() =~= Self::header());
        r
    }

    fn get_type_header_length() -> (r: u64) {
        0
    }

    open spec fn header_code(b: BuilderView, ptr: Value, size: Value) -> BuilderView {
        b
    }

    fn init_header(builder: &mut Builder, ptr: Value, size: Value) {
    }

    open spec fn heap_start_code(cx: CodegenContextView, b: BuilderView) -> Result<
        BuilderView,
        CodegenErrorView,
    > {
        runtime_call(cx, b, BuildIn::init_heap.name(), seq![], Value::Absent)
    }

    fn init_heap(cc: &CodegenContext, builder: &mut Builder) -> (r: Result<(), CodegenError>) {
        call_runtime(cc, builder, BuildIn::init_heap.as_str(), Vec::new(), Value::Absent)
    }

    open spec fn heap_end_code(cx: CodegenContextView, b: BuilderView) -> Result<
        BuilderView,
        CodegenErrorView,
    > {
        runtime_call(cx, b, BuildIn::close_heap.name(), seq![], Value::Absent)
    }

    fn close_heap(cc: &CodegenContext, builder: &mut Builder) -> (r: Result<(), CodegenError>) {
        call_runtime(cc, builder, BuildIn::close_heap.as_str(), Vec::new(), Value::Absent)
    }

    open spec fn allocation_code(
        cx: CodegenContextView,
        b: BuilderView,
        size: Value,
        sp: Value,
    ) -> Result<(BuilderView, Value), CodegenErrorView> {
        allocation_by(cx, b, BuildIn::type_alloc.name(), size, sp)
    }

    fn type_allocation(
        cc: &CodegenContext,
        builder: &mut Builder,
        size: Value,
        current_sp: Value,
    ) -> (r: Result<Value, CodegenError>) {
        allocate_by(cc, builder, BuildIn::type_alloc.as_str(), size, current_sp)
    }

    open spec fn access_code(
        cx: CodegenContextView,
        b: BuilderView,
        ptr: Value,
        sp: Value,
    ) -> Result<BuilderView, CodegenErrorView> {
        Ok(b)
    }

    fn type_ptr_access(
        cc: &CodegenContext,
        builder: &mut Builder,
        ptr: Value,
        current_sp: Value,
    ) -> (r: Result<(), CodegenError>) {
        Ok(())
    }

    open spec fn drop_code(
        cx: CodegenContextView,
        b: BuilderView,
        ptr: Value,
        sp: Value,
    ) -> Result<BuilderView, CodegenErrorView> {
        Ok(b)
    }

    fn type_ptr_drop(
        cc: &CodegenContext,
        builder: &mut Builder,
        ptr: Value,
        current_sp: Value,
    ) -> (r: Result<(), CodegenError>) {
        Ok(())
    }
}

/// Atomic reference counting: the header holds the counter, which starts
/// at one; the runtime counts up when a reference is taken and down when
/// one is given up, and frees the object at zero.
pub struct ARC {}

impl GC for ARC {
    open spec fn header() -> Seq<IrTypeView> {
        seq![IrTypeView::Int(32)]
    }

    fn get_type_header() -> (r: Vec<IrType>) {
        let mut r: Vec<IrType> = Vec::new();
        r.push(IrType::Int(32));
        assert(r.deep_view() =~= Self::header());
        r
    }

    fn get_type_header_length() -> (r: u64) {
        1
    }

    open spec fn header_code(b: BuilderView, ptr: Value, size: Value) -> BuilderView {
        b.emit(header_address(ptr, "arc_header"@)).emit(
            InstrView::Store { value: Value::ConstInt { bits: 32, value: 1 }, ptr: b.next_value() },
        )
    }

    fn init_header(builder: &mut Builder, ptr: Value, size: Value) {
        let arc_header_ptr = emit_header_address(builder, ptr, "arc_header");
        builder.emit(
            Instr::Store { value: Value::ConstInt { bits: 32, value: 1 }, ptr: arc_header_ptr },
        );
    }

    open spec fn heap_start_code(cx: CodegenContextView, b: BuilderView) -> Result<
        BuilderView,
        CodegenErrorView,
    > {
        runtime_call(cx, b, BuildIn::init_heap.name(), seq![], Value::Absent)
    }

    fn init_heap(cc: &CodegenContext, builder: &mut Builder) -> (r: Result<(), CodegenError>) {
        call_runtime(cc, builder, BuildIn::init_heap.as_str(), Vec::new(), Value::Absent)
    }

    open spec fn heap_end_code(cx: CodegenContextView, b: BuilderView) -> Result<
        BuilderView,
        CodegenErrorView,
    > {
        runtime_call(cx, b, BuildIn::close_heap.name(), seq![], Value::Absent)
    }

    fn close_heap(cc: &CodegenContext, builder: &mut Builder) -> (r: Result<(), CodegenError>) {
        call_runtime(cc, builder, BuildIn::close_heap.as_str(), Vec::new(), Value::Absent)
    }

    open spec fn allocation_code(
        cx: CodegenContextView,
        b: BuilderView,
        size: Value,
        sp: Value,
    ) -> Result<(BuilderView, Value), CodegenErrorView> {
        allocation_by(cx, b, BuildIn::type_alloc.name(), size, sp)
    }

    fn type_allocation(
        cc: &CodegenContext,
        builder: &mut Builder,
        size: Value,
        current_sp: Value,
    ) -> (r: Result<Value, CodegenError>) {
        allocate_by(cc, builder, BuildIn::type_alloc.as_str(), size, current_sp)
    }

    open spec fn access_code(
        cx: CodegenContextView,
        b: BuilderView,
        ptr: Value,
        sp: Value,
    ) -> Result<BuilderView, CodegenErrorView> {
        pointer_hook(cx, b, BuildIn::arc_ptr_access.name(), ptr, sp)
    }

    fn type_ptr_access(
        cc: &CodegenContext,
        builder: &mut Builder,
        ptr: Value,
        current_sp: Value,
    ) -> (r: Result<(), CodegenError>) {
        call_pointer_hook(cc, builder, BuildIn::arc_ptr_access.as_str(), ptr, current_sp)
    }

    open spec fn drop_code(
        cx: CodegenContextView,
        b: BuilderView,
        ptr: Value,
        sp: Value,
    ) -> Result<BuilderView, CodegenErrorView> {
        pointer_hook(cx, b, BuildIn::arc_drop_ptr.name(), ptr, sp)
    }

    fn type_ptr_drop(
        cc: &CodegenContext,
        builder: &mut Builder,
        ptr: Value,
        current_sp: Value,
    ) -> (r: Result<(), CodegenError>) {
        call_pointer_hook(cc, builder, BuildIn::arc_drop_ptr.as_str(), ptr, current_sp)
    }
}

/// A tracing collector: the header holds the size of the object; an
/// allocation may collect before it returns; nothing is to do when a
/// reference is taken or given up.
pub struct TGC {}

impl GC for TGC {
    open spec fn header() -> Seq<IrTypeView> {
        seq![IrTypeView::Int(32)]
    }

    fn get_type_header() -> (r: Vec<IrType>) {
        let mut r: Vec<IrType> = Vec::new();
        r.push(IrType::Int(32));
        assert(r.deep_view() =~= Self::header());
        r
    }

    fn get_type_header_length() -> (r: u64) {
        1
    }

    open spec fn header_code(b: BuilderView, ptr: Value, size: Value) -> BuilderView {
        let address = b.emit(header_address(ptr, "tgc_header"@));
        let cast = address.emit(
            InstrView::IntCast { value: size, ty: IrTypeView::Int(32), name: "OBJ_SIZE"@ },
        );
        cast.emit(InstrView::Store { value: address.next_value(), ptr: b.next_value() })
    }

    fn init_header(builder: &mut Builder, ptr: Value, size: Value) {
        let tgc_header_ptr = emit_header_address(builder, ptr, "tgc_header");
        let size_u32 = builder.emit(
            Instr::IntCast { value: size, ty: IrType::Int(32), name: "OBJ_SIZE".to_owned() },
        );
        builder.emit(Instr::Store { value: size_u32, ptr: tgc_header_ptr });
    }

    open spec fn heap_start_code(cx: CodegenContextView, b: BuilderView) -> Result<
        BuilderView,
        CodegenErrorView,
    > {
        runtime_call(cx, b, BuildIn::tgc_init_heap.name(), seq![], Value::Absent)
    }

    fn init_heap(cc: &CodegenContext, builder: &mut Builder) -> (r: Result<(), CodegenError>) {
        call_runtime(cc, builder, BuildIn::tgc_init_heap.as_str(), Vec::new(), Value::Absent)
    }

    open spec fn heap_end_code(cx: CodegenContextView, b: BuilderView) -> Result<
        BuilderView,
        CodegenErrorView,
    > {
        runtime_call(cx, b, BuildIn::tgc_close_heap.name(), seq![], Value::Absent)
    }

    fn close_heap(cc: &CodegenContext, builder: &mut Builder) -> (r: Result<(), CodegenError>) {
        call_runtime(cc, builder, BuildIn::tgc_close_heap.as_str(), Vec::new(), Value::Absent)
    }

    open spec fn allocation_code(
        cx: CodegenContextView,
        b: BuilderView,
        size: Value,
        sp: Value,
    ) -> Result<(BuilderView, Value), CodegenErrorView> {
        allocation_by(cx, b, BuildIn::tgc_type_alloc.name(), size, sp)
    }

    fn type_allocation(
        cc: &CodegenContext,
        builder: &mut Builder,
        size: Value,
        current_sp: Value,
    ) -> (r: Result<Value, CodegenError>) {
        allocate_by(cc, builder, BuildIn::tgc_type_alloc.as_str(), size, current_sp)
    }

    open spec fn access_code(
        cx: CodegenContextView,
        b: BuilderView,
        ptr: Value,
        sp: Value,
    ) -> Result<BuilderView, CodegenErrorView> {
        Ok(b)
    }

    fn type_ptr_access(
        cc: &CodegenContext,
        builder: &mut Builder,
        ptr: Value,
        current_sp: Value,
    ) -> (r: Result<(), CodegenError>) {
        Ok(())
    }

    open spec fn drop_code(
        cx: CodegenContextView,
        b: BuilderView,
        ptr: Value,
        sp: Value,
    ) -> Result<BuilderView, CodegenErrorView> {
        Ok(b)
    }

    fn type_ptr_drop(
        cc: &CodegenContext,
        builder: &mut Builder,
        ptr: Value,
        current_sp: Value,
    ) -> (r: Result<(), CodegenError>) {
        Ok(())
    }
}

} // verus!
