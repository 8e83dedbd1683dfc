//! Middle and back end of a compiler for a small expression language with
//! tagged unions, overloading by parameter types and multi-module imports.
//!
//! The library takes the parsed modules of a program and gives back the
//! translation unit that a native code generator turns into an
//! executable:
//!
//! - `input` gives every module its identity and rewrites its imports;
//! - `type_check` links the modules into one typed program, the `Binary`:
//!   it resolves names and overloads, infers and checks types, and turns
//!   every `match` into conditionals;
//! - `types` lays out the heap objects of every type;
//! - `codegen` lowers the typed program into an intermediate
//!   representation of instructions in basic blocks, with every allocation
//!   and every reference going through one of three memory reclamation
//!   strategies.
//!
//! Every function states what it computes over a model of its data, in
//! which a text is a sequence of characters and a list a sequence, and is
//! proved to compute it. The typing rules are the spec functions of
//! `type_check::rules`, the code of an expression is `lower` in
//! `codegen::expression`. Beside the functions stand the laws that hold of
//! them: that a binding does not outlive its body, that a conditional has
//! the unified type of its branches, that no two fields of an object share
//! a slot, that an object holds what it was built with, and that the code
//! for reference counting takes and gives up each reference exactly once.
pub mod binary;
pub mod codegen;
pub mod collect;
pub mod input;
pub mod lookup;
pub mod module;
pub mod text;
pub mod type_check;
pub mod types;
