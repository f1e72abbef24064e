//! What the translation of one function body is given.

use crate::module::Module;
use cranelift_codegen::isa::TargetFrontendConfig;
use vstd::prelude::*;

verus! {

/// The options under which function bodies are compiled.
#[derive(Clone, Copy, Debug, PartialEq, Eq, Structural)]
pub struct BuildOption {
    /// Whether the compiled code accounts for the gas it uses.
    pub gas_metering: bool,
}

/// The environment of the translation of one function body: the target, the
/// module that the function belongs to, and the build options.
pub struct FuncEnvironment<'module_environment> {
    /// The configuration of the target.
    pub target_config: TargetFrontendConfig,
    /// The module.
    pub module: &'module_environment Module,
    /// The build options.
    pub build_option: BuildOption,
}

impl<'module_environment> FuncEnvironment<'module_environment> {
    /// Creates the environment for the translation of a function of `module`.
    pub fn new(
        target_config: TargetFrontendConfig,
        module: &'module_environment Module,
        build_option: BuildOption,
    ) -> (env: Self)
        ensures
            env.target_config == target_config,
            env.module == module,
            env.build_option == build_option,
    {
        FuncEnvironment { target_config, module, build_option }
    }
}

} // verus!
