//! The intermediate representation that code generation emits: typed
//! instructions in basic blocks, the functions that hold them, and the
//! layouts of the heap objects.
use crate::text::{decimal, to_decimal};
use vstd::prelude::*;
use vstd::string::StringExecFns;

verus! {

/// A type of the target.
#[derive(Debug, PartialEq, Eq)]
pub enum IrType {
    Void,
    /// An integer of so many bits.
    Int(u32),
    /// The named aggregate.
    Struct(String),
    Pointer(Box<IrType>),
}

/// The model of `IrType`: the same value over sequences of characters.
pub enum IrTypeView {
    Void,
    Int(u32),
    Struct(Seq<char>),
    Pointer(Box<IrTypeView>),
}

/// The model of a target type.
pub open spec fn ir_type_view(ty: &IrType) -> IrTypeView
    decreases ty,
{
    match ty {
        IrType::Void => IrTypeView::Void,
        IrType::Int(bits) => IrTypeView::Int(*bits),
        IrType::Struct(name) => IrTypeView::Struct(name@),
        IrType::Pointer(to) => IrTypeView::Pointer(Box::new(ir_type_view(&**to))),
    }
}

impl DeepView for IrType {
    type V = IrTypeView;

    open spec fn deep_view(&self) -> IrTypeView {
        ir_type_view(self)
    }
}

/// A copy of a target type.
pub fn clone_ir_type(ty: &IrType) -> (r: IrType)
    ensures
        r.deep_view() == ty.deep_view(),
    decreases ty,
{
    match ty {
        IrType::Void => IrType::Void,
        IrType::Int(bits) => IrType::Int(*bits),
        IrType::Struct(name) => IrType::Struct(name.clone()),
        IrType::Pointer(to) => IrType::Pointer(Box::new(clone_ir_type(to))),
    }
}

/// How two integers are compared.
#[derive(Clone, Copy, Debug, PartialEq, Eq, Structural)]
pub enum IntPredicate {
    Equal,
    NotEqual,
    SignedLess,
    SignedLessOrEqual,
    SignedGreater,
    SignedGreaterOrEqual,
}

/// An operation on two integers.
#[derive(Clone, Copy, Debug, PartialEq, Eq, Structural)]
pub enum BinaryOp {
    Add,
    Sub,
    Mul,
    SignedDiv,
    SignedRem,
}

/// An operation on one integer.
#[derive(Clone, Copy, Debug, PartialEq, Eq, Structural)]
pub enum UnaryOp {
    Neg,
    Not,
}

/// An operand: a handle on a value of the function being built.
#[derive(Clone, Copy, Debug, PartialEq, Eq, Structural)]
pub enum Value {
    /// No value: what an expression of type `void` leaves.
    Absent,
    /// The integer constant `value` of `bits` bits.
    ConstInt { bits: u32, value: u64 },
    /// The parameter of this position.
    Param(usize),
    /// The result of the instruction of this number.
    Inst(usize),
}

impl DeepView for Value {
    type V = Value;

    open spec fn deep_view(&self) -> Value {
        *self
    }
}

/// One instruction. Each names its result as the target will show it.
#[derive(Debug, PartialEq, Eq)]
pub enum Instr {
    /// A global that holds `text`; the result points to its first byte.
    GlobalString { text: String, name: String },
    /// The size in bytes of the aggregate `ty`.
    SizeOf { aggregate: String },
    /// A slot on the machine stack.
    Alloca { ty: IrType, name: String },
    Load { ptr: Value, name: String },
    Store { value: Value, ptr: Value },
    /// Stores the null pointer of the type that `ptr` points to.
    StoreNull { ptr: Value },
    /// The address of an element: `ptr` indexed by `indices`.
    ElementPtr { ptr: Value, indices: Vec<Value>, name: String },
    BitCast { value: Value, ty: IrType, name: String },
    IntCast { value: Value, ty: IrType, name: String },
    Compare { predicate: IntPredicate, lhs: Value, rhs: Value, name: String },
    Binary { op: BinaryOp, lhs: Value, rhs: Value, name: String },
    Unary { op: UnaryOp, value: Value, name: String },
    Call { callee: String, args: Vec<Value>, name: String },
    CondBr { cond: Value, then_block: usize, else_block: usize },
    Br { block: usize },
    /// The value that came in from the block that was left last.
    Phi { ty: IrType, incoming: Vec<(Value, usize)>, name: String },
    Ret { value: Value },
    RetVoid,
}

/// The model of `Instr`: the same value over sequences of characters.
pub enum InstrView {
    GlobalString { text: Seq<char>, name: Seq<char> },
    SizeOf { aggregate: Seq<char> },
    Alloca { ty: IrTypeView, name: Seq<char> },
    Load { ptr: Value, name: Seq<char> },
    Store { value: Value, ptr: Value },
    StoreNull { ptr: Value },
    ElementPtr { ptr: Value, indices: Seq<Value>, name: Seq<char> },
    BitCast { value: Value, ty: IrTypeView, name: Seq<char> },
    IntCast { value: Value, ty: IrTypeView, name: Seq<char> },
    Compare { predicate: IntPredicate, lhs: Value, rhs: Value, name: Seq<char> },
    Binary { op: BinaryOp, lhs: Value, rhs: Value, name: Seq<char> },
    Unary { op: UnaryOp, value: Value, name: Seq<char> },
    Call { callee: Seq<char>, args: Seq<Value>, name: Seq<char> },
    CondBr { cond: Value, then_block: usize, else_block: usize },
    Br { block: usize },
    Phi { ty: IrTypeView, incoming: Seq<(Value, usize)>, name: Seq<char> },
    Ret { value: Value },
    RetVoid,
}

impl DeepView for Instr {
    type V = InstrView;

    open spec fn deep_view(&self) -> InstrView {
        match self {
            Instr::GlobalString { text, name } => InstrView::GlobalString {
                text: text@,
                name: name@,
            },
            Instr::SizeOf { aggregate } => InstrView::SizeOf { aggregate: aggregate@ },
            Instr::Alloca { ty, name } => InstrView::Alloca { ty: ty.deep_view(), name: name@ },
            Instr::Load { ptr, name } => InstrView::Load { ptr: *ptr, name: name@ },
            Instr::Store { value, ptr } => InstrView::Store { value: *value, ptr: *ptr },
            Instr::StoreNull { ptr } => InstrView::StoreNull { ptr: *ptr },
            Instr::ElementPtr { ptr, indices, name } => InstrView::ElementPtr {
                ptr: *ptr,
                indices: indices@,
                name: name@,
            },
            Instr::BitCast { value, ty, name } => InstrView::BitCast {
                value: *value,
                ty: ty.deep_view(),
                name: name@,
            },
            Instr::IntCast { value, ty, name } => InstrView::IntCast {
                value: *value,
                ty: ty.deep_view(),
                name: name@,
            },
            Instr::Compare { predicate, lhs, rhs, name } => InstrView::Compare {
                predicate: *predicate,
                lhs: *lhs,
                rhs: *rhs,
                name: name@,
            },
            Instr::Binary { op, lhs, rhs, name } => InstrView::Binary {
                op: *op,
                lhs: *lhs,
                rhs: *rhs,
                name: name@,
            },
            Instr::Unary { op, value, name } => InstrView::Unary {
                op: *op,
                value: *value,
                name: name@,
            },
            Instr::Call { callee, args, name } => InstrView::Call {
                callee: callee@,
                args: args@,
                name: name@,
            },
            Instr::CondBr { cond, then_block, else_block } => InstrView::CondBr {
                cond: *cond,
                then_block: *then_block,
                else_block: *else_block,
            },
            Instr::Br { block } => InstrView::Br { block: *block },
            Instr::Phi { ty, incoming, name } => InstrView::Phi {
                ty: ty.deep_view(),
                incoming: incoming@,
                name: name@,
            },
            Instr::Ret { value } => InstrView::Ret { value: *value },
            Instr::RetVoid => InstrView::RetVoid,
        }
    }
}

/// The body of a function while it is built: the labels of its blocks,
/// every instruction with the number of the block it stands in, in the
/// order of emission, and the block that the next instruction goes to.
///
/// The instructions of one block are those of its number, in order. The
/// number of an instruction is its position in `instrs`.
#[derive(Debug, PartialEq, Eq)]
pub struct Builder {
    pub blocks: Vec<String>,
    pub instrs: Vec<(usize, Instr)>,
    pub current: usize,
}

/// The model of `Builder`: the same value over sequences of characters.
pub struct BuilderView {
    pub blocks: Seq<Seq<char>>,
    pub instrs: Seq<(usize, InstrView)>,
    pub current: usize,
}

impl DeepView for Builder {
    type V = BuilderView;

    open spec fn deep_view(&self) -> BuilderView {
        BuilderView {
            blocks: self.blocks.deep_view(),
            instrs: self.instrs.deep_view(),
            current: self.current,
        }
    }
}

impl BuilderView {
    /// The state after `instr` is emitted to the current block.
    pub open spec fn emit(self, instr: InstrView) -> BuilderView {
        BuilderView { instrs: self.instrs.push((self.current, instr)), ..self }
    }

    /// The handle on the result of the instruction emitted next.
    pub open spec fn next_value(self) -> Value {
        Value::Inst(self.instrs.len() as usize)
    }

    /// The state after a block of the label `name` is added.
    pub open spec fn append_block(self, name: Seq<char>) -> BuilderView {
        BuilderView { blocks: self.blocks.push(name), ..self }
    }

    /// The state after the builder is moved to the end of `block`.
    pub open spec fn position_at_end(self, block: usize) -> BuilderView {
        BuilderView { current: block, ..self }
    }
}

impl Builder {
    /// A builder without blocks.
    pub fn new() -> (r: Builder)
        ensures
            r.deep_view() == (BuilderView { blocks: seq![], instrs: seq![], current: 0 }),
    {
        let r = Builder { blocks: Vec::new(), instrs: Vec::new(), current: 0 };
        assert(r.blocks.deep_view() =~= Seq::<Seq<char>>::empty());
        assert(r.instrs.deep_view() =~= Seq::<(usize, InstrView)>::empty());
        r
    }

    /// Emits `instr` to the current block and returns the handle on its
    /// result.
    pub fn emit(&mut self, instr: Instr) -> (r: Value)
        ensures
            final(self).deep_view() == old(self).deep_view().emit(instr.deep_view()),
            r == old(self).deep_view().next_value(),
    {
        let ghost before = self.instrs.deep_view();
        let id = self.instrs.len();
        self.instrs.push((self.current, instr));
        assert(self.instrs.deep_view() =~= before.push((self.current, instr.deep_view())));
        Value::Inst(id)
    }

    /// Adds a block of the label `name` and returns its number.
    pub fn append_block(&mut self, name: &str) -> (r: usize)
        ensures
            final(self).deep_view() == old(self).deep_view().append_block(name@),
            r == old(self).deep_view().blocks.len(),
    {
        let ghost before = self.blocks.deep_view();
        let id = self.blocks.len();
        self.blocks.push(name.to_owned());
        assert(self.blocks.deep_view() =~= before.push(name@));
        id
    }

    /// Moves the builder to the end of `block`.
    pub fn position_at_end(&mut self, block: usize)
        ensures
            final(self).deep_view() == old(self).deep_view().position_at_end(block),
    {
        self.current = block;
    }

    /// The block that the next instruction goes to.
    pub fn insert_block(&self) -> (r: usize)
        ensures
            r == self.current,
    {
        self.current
    }
}

/// A function of the module. A function without a body is a declaration
/// of a symbol of the runtime library.
#[derive(Debug, PartialEq, Eq)]
pub struct IrFunction {
    pub name: String,
    pub params: Vec<IrType>,
    pub ret_type: IrType,
    pub is_var_arg: bool,
    pub body: Option<Builder>,
}

/// The model of `IrFunction`: the same value over sequences of characters.
pub struct IrFunctionView {
    pub name: Seq<char>,
    pub params: Seq<IrTypeView>,
    pub ret_type: IrTypeView,
    pub is_var_arg: bool,
    pub body: Option<BuilderView>,
}

impl DeepView for IrFunction {
    type V = IrFunctionView;

    open spec fn deep_view(&self) -> IrFunctionView {
        IrFunctionView {
            name: self.name@,
            params: self.params.deep_view(),
            ret_type: self.ret_type.deep_view(),
            is_var_arg: self.is_var_arg,
            body: self.body.deep_view(),
        }
    }
}

/// A translation unit: the layouts of the heap objects and the functions.
#[derive(Debug, PartialEq, Eq)]
pub struct IrModule {
    pub name: String,
    pub structs: Vec<(String, Vec<IrType>)>,
    pub functions: Vec<IrFunction>,
}

/// The model of `IrModule`: the same value over sequences of characters.
pub struct IrModuleView {
    pub name: Seq<char>,
    pub structs: Seq<(Seq<char>, Seq<IrTypeView>)>,
    pub functions: Seq<IrFunctionView>,
}

impl DeepView for IrModule {
    type V = IrModuleView;

    open spec fn deep_view(&self) -> IrModuleView {
        IrModuleView {
            name: self.name@,
            structs: self.structs.deep_view(),
            functions: self.functions.deep_view(),
        }
    }
}

/// An inconsistency of the typed program that code generation came upon.
/// The checker lets none of them through; each names what was missing.
#[derive(Debug, PartialEq, Eq)]
pub enum CodegenError {
    /// A call names neither a function of the program nor a built-in.
    UnknownFunction(String),
    /// A built-in was called with too few arguments.
    MissingArgument { function: String, index: usize },
    /// A type has no layout.
    StructNotFound(String),
    /// A type has no definition in the program.
    TypeNotFound(String),
    /// A type has no case of this name.
    CaseNotFound { ty: String, case: String },
    /// A case has no field of this index.
    FieldNotFound { ty: String, case: String, index: usize },
    /// A variable is read that no parameter and no `let` binds.
    VariableNotFound(String),
    /// The program has no function `main`.
    MainNotFound,
    /// A type has more cases or more pointer fields than the tag of an
    /// object can hold.
    LayoutTooLarge(String),
}

/// The model of `CodegenError`: the same value over sequences of characters.
pub enum CodegenErrorView {
    UnknownFunction(Seq<char>),
    MissingArgument { function: Seq<char>, index: usize },
    StructNotFound(Seq<char>),
    TypeNotFound(Seq<char>),
    CaseNotFound { ty: Seq<char>, case: Seq<char> },
    FieldNotFound { ty: Seq<char>, case: Seq<char>, index: usize },
    VariableNotFound(Seq<char>),
    MainNotFound,
    LayoutTooLarge(Seq<char>),
}

impl DeepView for CodegenError {
    type V = CodegenErrorView;

    open spec fn deep_view(&self) -> CodegenErrorView {
        match self {
            CodegenError::UnknownFunction(name) => CodegenErrorView::UnknownFunction(name@),
            CodegenError::MissingArgument { function, index } => CodegenErrorView::MissingArgument {
                function: function@,
                index: *index,
            },
            CodegenError::StructNotFound(ty) => CodegenErrorView::StructNotFound(ty@),
            CodegenError::TypeNotFound(ty) => CodegenErrorView::TypeNotFound(ty@),
            CodegenError::CaseNotFound { ty, case } => CodegenErrorView::CaseNotFound {
                ty: ty@,
                case: case@,
            },
            CodegenError::FieldNotFound { ty, case, index } => CodegenErrorView::FieldNotFound {
                ty: ty@,
                case: case@,
                index: *index,
            },
            CodegenError::VariableNotFound(name) => CodegenErrorView::VariableNotFound(name@),
            CodegenError::MainNotFound => CodegenErrorView::MainNotFound,
            CodegenError::LayoutTooLarge(ty) => CodegenErrorView::LayoutTooLarge(ty@),
        }
    }
}

/// The model of an answer of code generation.
pub open spec fn outcome<T: DeepView>(r: Result<T, CodegenError>) -> Result<
    T::V,
    CodegenErrorView,
> {
    match r {
        Ok(t) => Ok(t.deep_view()),
        Err(e) => Err(e.deep_view()),
    }
}

/// Whether code generation answered `r` and left the builder as `after`
/// where `expected` says what it should emit and return. Where an error
/// is expected, the builder is of no use any more and nothing is said of
/// it.
pub open spec fn emitted(
    r: Result<Value, CodegenError>,
    after: BuilderView,
    expected: Result<(BuilderView, Value), CodegenErrorView>,
) -> bool {
    match expected {
        Ok((b, v)) => r == Ok::<Value, CodegenError>(v) && after == b,
        Err(e) => r matches Err(x) && x.deep_view() == e,
    }
}

/// As `emitted`, for code that returns no value.
pub open spec fn emitted_only(
    r: Result<(), CodegenError>,
    after: BuilderView,
    expected: Result<BuilderView, CodegenErrorView>,
) -> bool {
    match expected {
        Ok(b) => r is Ok && after == b,
        Err(e) => r matches Err(x) && x.deep_view() == e,
    }
}

/// A copy of a list of operands.
pub fn copy_values(values: &Vec<Value>) -> (r: Vec<Value>)
    ensures
        r@ == values@,
{
    let mut copy: Vec<Value> = Vec::new();
    let mut i: usize = 0;
    while i < values.len()
        invariant
            i <= values.len(),
            copy@ == values@.take(i as int),
        decreases values.len() - i,
    {
        copy.push(values[i]);
        assert(copy@ =~= values@.take(i + 1));
        i += 1;
    }
    assert(values@.take(values.len() as int) =~= values@);
    copy
}

/// The text of an error of code generation: what was missing.
pub open spec fn codegen_message_text(e: CodegenErrorView) -> Seq<char> {
    match e {
        CodegenErrorView::UnknownFunction(name) => "Could not find function "@ + name,
        CodegenErrorView::MissingArgument { function, index } => "Could not find argument "@
            + decimal(index as nat) + " of "@ + function,
        CodegenErrorView::StructNotFound(ty) => "Could not find llvm struct "@ + ty,
        CodegenErrorView::TypeNotFound(ty) => "Could not find type def in binary: "@ + ty,
        CodegenErrorView::CaseNotFound { ty, case } => "Internal error: Could not find case index: "@
            + ty + "."@ + case,
        CodegenErrorView::FieldNotFound { ty, case, index } => "Internal error: Could not find field "@
            + decimal(index as nat) + " of "@ + ty + "."@ + case,
        CodegenErrorView::VariableNotFound(name) => "Could not find key "@ + name,
        CodegenErrorView::MainNotFound => "Could not find main codegen"@,
        CodegenErrorView::LayoutTooLarge(ty) => "Internal error: Too many cases or fields: "@ + ty,
    }
}

impl CodegenError {
    /// The text of the error, with the name of what was missing.
    pub fn message(&self) -> (r: String)
        ensures
            r@ == codegen_message_text(self.deep_view()),
    {
        let mut out = String::new();
        match self {
            CodegenError::UnknownFunction(name) => {
                out.append("Could not find function ");
                out.append(name.as_str());
            },
            CodegenError::MissingArgument { function, index } => {
                out.append("Could not find argument ");
                out.append(to_decimal(*index as u64).as_str());
                out.append(" of ");
                out.append(function.as_str());
            },
            CodegenError::StructNotFound(ty) => {
                out.append("Could not find llvm struct ");
                out.append(ty.as_str());
            },
            CodegenError::TypeNotFound(ty) => {
                out.append("Could not find type def in binary: ");
                out.append(ty.as_str());
            },
            CodegenError::CaseNotFound { ty, case } => {
                out.append("Internal error: Could not find case index: ");
                out.append(ty.as_str());
                out.append(".");
                out.append(case.as_str());
            },
            CodegenError::FieldNotFound { ty, case, index } => {
                out.append("Internal error: Could not find field ");
                out.append(to_decimal(*index as u64).as_str());
                out.append(" of ");
                out.append(ty.as_str());
                out.append(".");
                out.append(case.as_str());
            },
            CodegenError::VariableNotFound(name) => {
                out.append("Could not find key ");
                out.append(name.as_str());
            },
            CodegenError::MainNotFound => {
                out.append("Could not find main codegen");
            },
            CodegenError::LayoutTooLarge(ty) => {
                out.append("Internal error: Too many cases or fields: ");
                out.append(ty.as_str());
            },
        }
        assert(out@ =~= codegen_message_text(self.deep_view()));
        out
    }
}

} // verus!
