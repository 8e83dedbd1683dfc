//! Code generation: from the typed program to the intermediate representation.
pub mod build_in;
pub mod counting;
pub mod expression;
pub mod function;
pub mod garbage_collection;
pub mod ir;
pub mod module;
pub mod round_trip;
pub mod scoping;

use crate::binary::{Binary, BinaryView};
use crate::codegen::garbage_collection::{ARC, GC, Spill, TGC};
use crate::input::Strategy;
use crate::codegen::ir::{outcome, CodegenError, IrModule, IrType, IrTypeView};
use crate::codegen::module::{build_module, unit};
use vstd::prelude::*;

verus! {

/// What code generation reads while it works: the program and the
/// layouts of its types.
#[derive(Debug, PartialEq, Eq)]
pub struct CodegenContext {
    pub binary: Binary,
    pub llvm_structs: Vec<(String, Vec<IrType>)>,
}

/// The model of `CodegenContext`: the same value over sequences of characters.
pub struct CodegenContextView {
    pub binary: BinaryView,
    pub structs: Seq<(Seq<char>, Seq<IrTypeView>)>,
}

impl DeepView for CodegenContext {
    type V = CodegenContextView;

    open spec fn deep_view(&self) -> CodegenContextView {
        CodegenContextView {
            binary: self.binary.deep_view(),
            structs: self.llvm_structs.deep_view(),
        }
    }
}

/// Generates the code of a typed program under the memory reclamation
/// strategy `Gc`: the translation unit with the layouts of all types, the
/// entry function, every function it reaches, and the declarations of the
/// runtime symbols that are called. Fails where the program is not
/// consistent, with what was missing.
pub fn codegen<Gc: GC>(binary: Binary) -> (r: Result<IrModule, CodegenError>)
    ensures
        outcome(r) == unit::<Gc>(binary.deep_view()),
{
    build_module::<Gc>(binary)
}

/// Generates the code of a typed program under the strategy that was
/// selected when the compiler was started.
pub fn codegen_for(strategy: Strategy, binary: Binary) -> (r: Result<IrModule, CodegenError>)
    ensures
        outcome(r) == match strategy {
            Strategy::Spill => unit::<Spill>(binary.deep_view()),
            Strategy::Arc => unit::<ARC>(binary.deep_view()),
            Strategy::Tgc => unit::<TGC>(binary.deep_view()),
        },
{
    match strategy {
        Strategy::Spill => codegen::<Spill>(binary),
        Strategy::Arc => codegen::<ARC>(binary),
        Strategy::Tgc => codegen::<TGC>(binary),
    }
}

} // verus!
