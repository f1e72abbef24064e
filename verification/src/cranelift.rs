//! The types and functions of the cranelift crates that the library builds on.
//!
//! The values of these types are opaque to proofs: the library carries them
//! through, and what it needs to know of them is stated here, unproved.

use cranelift_codegen::ir::Type;
use cranelift_codegen::isa::{CallConv, TargetFrontendConfig};
use cranelift_wasm::{
    FuncIndex, Global, GlobalIndex, MemoryIndex, ModuleTranslationState,
    SignatureIndex, Table, TableIndex, WasmError,
};
use vstd::prelude::*;

verus! {

/// `cranelift_codegen::ir::Type`, the type of an SSA value.
#[verifier::external_type_specification]
#[verifier::external_body]
pub struct ExType(Type);

/// `cranelift_codegen::isa::CallConv`, a calling convention.
#[verifier::external_type_specification]
#[verifier::external_body]
pub struct ExCallConv(CallConv);

/// `cranelift_codegen::isa::TargetFrontendConfig`, what a frontend knows of its target.
#[verifier::external_type_specification]
#[verifier::external_body]
pub struct ExTargetFrontendConfig(TargetFrontendConfig);

/// `cranelift_wasm::FuncIndex`, the index of a function, imported or defined.
#[verifier::external_type_specification]
#[verifier::external_body]
pub struct ExFuncIndex(FuncIndex);

/// `cranelift_wasm::SignatureIndex`, the index of a signature.
#[verifier::external_type_specification]
#[verifier::external_body]
pub struct ExSignatureIndex(SignatureIndex);

/// `cranelift_wasm::TableIndex`, the index of a table.
#[verifier::external_type_specification]
#[verifier::external_body]
pub struct ExTableIndex(TableIndex);

/// `cranelift_wasm::MemoryIndex`, the index of a linear memory.
#[verifier::external_type_specification]
#[verifier::external_body]
pub struct ExMemoryIndex(MemoryIndex);

/// `cranelift_wasm::GlobalIndex`, the index of a global variable.
#[verifier::external_type_specification]
#[verifier::external_body]
pub struct ExGlobalIndex(GlobalIndex);

/// `cranelift_wasm::Table`, the descriptor of a table.
#[verifier::external_type_specification]
#[verifier::external_body]
pub struct ExTable(Table);

/// `cranelift_wasm::Global`, the descriptor of a global variable.
#[verifier::external_type_specification]
#[verifier::external_body]
pub struct ExGlobal(Global);

/// `cranelift_wasm::ModuleTranslationState`, what the decoder keeps of a
/// module for the translation of its function bodies.
#[verifier::external_type_specification]
#[verifier::external_body]
pub struct ExModuleTranslationState(ModuleTranslationState);

/// `cranelift_wasm::WasmError`, a translation error.
#[verifier::external_type_specification]
#[verifier::external_body]
pub struct ExWasmError(WasmError);

/// The pointer type of a target: what `TargetFrontendConfig::pointer_type`
/// returns for its configuration.
pub uninterp spec fn pointer_type_of(config: TargetFrontendConfig) -> Type;

/// Calls `TargetFrontendConfig::pointer_type`, which returns the integer type
/// that is as wide as a pointer of the target. The call returns for every
/// configuration: a pointer is 16, 32 or 64 bits wide, and there is an integer
/// type of each of these widths.
#[verifier::external_body]
pub(crate) fn pointer_type(config: TargetFrontendConfig) -> (t: Type)
    ensures
        t == pointer_type_of(config),
{
    config.pointer_type()
}

/// The error `WasmError::Unsupported` that holds the given description.
pub uninterp spec fn unsupported_error(description: Seq<char>) -> WasmError;

/// Builds the variant `Unsupported` of `WasmError` around a description.
#[verifier::external_body]
pub(crate) fn unsupported(description: String) -> (e: WasmError)
    ensures
        e == unsupported_error(description@),
{
    WasmError::Unsupported(description)
}

/// `ModuleTranslationState::new` creates the state of a module of which
/// nothing has been decoded. Nothing is claimed of it.
pub assume_specification[ ModuleTranslationState::new ]() -> (state: ModuleTranslationState);

} // verus!
