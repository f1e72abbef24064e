//! The mathematical model of a translation: what has been declared so far,
//! and what each declaration adds to it.

use crate::cranelift::pointer_type_of;
use crate::module::{Memory, MemoryPlan, ModuleView, TableElementsView};
use crate::module_environ::{DataInitializerView, FunctionBodyView};
use crate::signature::{has_context_param, spec_translate_signature, SignatureView};
use crate::tunables::Tunables;
use cranelift_codegen::isa::TargetFrontendConfig;
use cranelift_wasm::{FuncIndex, Global, ModuleTranslationState, SignatureIndex, Table};
use vstd::prelude::*;

verus! {

/// What a translation holds.
pub struct TranslationView {
    /// The configuration of the target.
    pub target_config: TargetFrontendConfig,
    /// The module.
    pub module: ModuleView,
    /// The bodies of the local functions, in the order of their definition.
    pub function_bodies: Seq<FunctionBodyView>,
    /// The data initializers, in the order of their declaration.
    pub data_initializers: Seq<DataInitializerView>,
    /// What the decoder keeps of the module.
    pub translate_state: ModuleTranslationState,
    /// The tunables under which memories are planned.
    pub tunables: Tunables,
}

impl TranslationView {
    /// The translation before any declaration.
    pub open spec fn initial(
        target_config: TargetFrontendConfig,
        tunables: Tunables,
        translate_state: ModuleTranslationState,
    ) -> TranslationView {
        TranslationView {
            target_config,
            module: ModuleView::empty(),
            function_bodies: Seq::empty(),
            data_initializers: Seq::empty(),
            translate_state,
            tunables,
        }
    }

    /// What every translation keeps: each signature begins with the context
    /// parameter of the target, and the imported functions are among the
    /// functions.
    pub open spec fn wf(self) -> bool {
        &&& forall|i: int|
            0 <= i < self.module.signatures.len() ==> has_context_param(
                #[trigger] self.module.signatures[i],
                pointer_type_of(self.target_config),
            )
        &&& self.module.imported_funcs.len() <= self.module.functions.len()
    }

    /// Whether no local function has been declared yet, as the declaration of
    /// an imported function asks.
    pub open spec fn imports_open(self) -> bool {
        self.module.functions.len() == self.module.imported_funcs.len()
    }

    /// The number of functions that the module defines itself.
    pub open spec fn local_func_count(self) -> int {
        self.module.functions.len() - self.module.imported_funcs.len()
    }

    /// The translation with one more signature, to which the context
    /// parameter has been added.
    pub open spec fn declare_signature(self, sig: SignatureView) -> TranslationView {
        TranslationView {
            module: ModuleView {
                signatures: self.module.signatures.push(
                    spec_translate_signature(sig, pointer_type_of(self.target_config)),
                ),
                ..self.module
            },
            ..self
        }
    }

    /// The translation with one more imported function.
    pub open spec fn declare_func_import(
        self,
        sig_index: SignatureIndex,
        module: Seq<char>,
        field: Seq<char>,
    ) -> TranslationView {
        TranslationView {
            module: ModuleView {
                functions: self.module.functions.push(sig_index),
                imported_funcs: self.module.imported_funcs.push((module, field)),
                ..self.module
            },
            ..self
        }
    }

    /// The translation with one more local function.
    pub open spec fn declare_func_type(self, sig_index: SignatureIndex) -> TranslationView {
        TranslationView {
            module: ModuleView { functions: self.module.functions.push(sig_index), ..self.module },
            ..self
        }
    }

    /// The translation with one more table.
    pub open spec fn declare_table(self, table: Table) -> TranslationView {
        TranslationView {
            module: ModuleView { tables: self.module.tables.push(table), ..self.module },
            ..self
        }
    }

    /// The translation with one more memory, planned under its tunables.
    pub open spec fn declare_memory(self, memory: Memory) -> TranslationView {
        TranslationView {
            module: ModuleView {
                memory_plans: self.module.memory_plans.push(
                    MemoryPlan::spec_for_memory(memory, self.tunables),
                ),
                ..self.module
            },
            ..self
        }
    }

    /// The translation with one more global variable.
    pub open spec fn declare_global(self, global: Global) -> TranslationView {
        TranslationView {
            module: ModuleView { globals: self.module.globals.push(global), ..self.module },
            ..self
        }
    }

    /// The translation with a function exported under a name. An earlier
    /// export of that name gives way.
    pub open spec fn declare_func_export(
        self,
        func_index: FuncIndex,
        name: Seq<char>,
    ) -> TranslationView {
        TranslationView {
            module: ModuleView {
                exports: self.module.exports.insert(name, func_index),
                ..self.module
            },
            ..self
        }
    }

    /// The translation with one more element segment.
    pub open spec fn declare_table_elements(self, elements: TableElementsView) -> TranslationView {
        TranslationView {
            module: ModuleView {
                table_elements: self.module.table_elements.push(elements),
                ..self.module
            },
            ..self
        }
    }

    /// The translation with one more function body.
    pub open spec fn define_function_body(self, body: FunctionBodyView) -> TranslationView {
        TranslationView { function_bodies: self.function_bodies.push(body), ..self }
    }

    /// The translation with one more data initializer.
    pub open spec fn declare_data_initialization(
        self,
        initializer: DataInitializerView,
    ) -> TranslationView {
        TranslationView { data_initializers: self.data_initializers.push(initializer), ..self }
    }

    /// The translation with the state that the decoder hands over at its end.
    pub open spec fn finish(self, translate_state: ModuleTranslationState) -> TranslationView {
        TranslationView { translate_state, ..self }
    }
}

/// The description of the error for an import that is not a function.
pub open spec fn import_rejection(kind: Seq<char>, module: Seq<char>, field: Seq<char>) -> Seq<
    char,
> {
    "can not import "@ + kind + " from "@ + module + "."@ + field
}

/// The description of the error for an export that is not a function.
pub open spec fn export_rejection(kind: Seq<char>, name: Seq<char>) -> Seq<char> {
    "can not export "@ + kind + " "@ + name
}

/// The description of the error for a start function.
pub open spec fn start_func_rejection() -> Seq<char> {
    "can not has start func"@
}

} // verus!
