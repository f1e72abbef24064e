//! Translation of WebAssembly module declarations into the in-memory form
//! that the code generator and the runtime of a sandboxed engine consume.
//!
//! A decoder walks a module binary and reports each declaration to a
//! [`ModuleEnvironment`], which applies the policy of the sandbox, gives each
//! signature the parameter for the execution context, plans each linear
//! memory, and gathers the rest. What comes out is a [`ModuleTranslation`].

pub mod capacity;
pub mod cranelift;
pub mod declarations;
pub mod func_environ;
pub mod function_bodies;
pub mod module;
pub mod module_environ;
pub mod signature;
pub mod translation;
pub mod tunables;

pub use crate::func_environ::{BuildOption, FuncEnvironment};
pub use crate::function_bodies::FunctionBodies;
pub use crate::module::{Memory, MemoryPlan, MemoryStyle, Module, TableElements};
pub use crate::module_environ::{
    translate_signature, DataInitializer, DataInitializerLocation, FunctionBodyData,
    ModuleEnvironment, ModuleTranslation, OwnedDataInitializer,
};
pub use crate::signature::{
    AbiParam, ArgumentExtension, ArgumentLoc, ArgumentPurpose, Signature,
};
pub use crate::tunables::Tunables;
