//! The listener as a state machine: the declarations that a decoder reports,
//! what each of them does to a translation, and what a whole run of them
//! comes to.

use crate::cranelift::{pointer_type_of, unsupported_error};
use crate::module::{Memory, MemoryPlan, TableElementsView};
use crate::module_environ::{DataInitializerView, FunctionBodyView};
use crate::signature::{
    declares_no_context, has_single_context_param, lemma_translated_signature_shape, SignatureView,
};
use crate::translation::{
    export_rejection, import_rejection, start_func_rejection, TranslationView,
};
use crate::tunables::Tunables;
use cranelift_wasm::{
    FuncIndex, Global, GlobalIndex, MemoryIndex, SignatureIndex, Table, TableIndex, WasmError,
    WasmResult,
};
use vstd::prelude::*;

verus! {

/// What a decoder reports to the listener: one variant for each method of
/// the listener that takes a declaration.
pub enum Declaration {
    ReserveSignatures { num: u32 },
    Signature { sig: SignatureView },
    FuncImport { sig_index: SignatureIndex, module: Seq<char>, field: Seq<char> },
    TableImport { table: Table, module: Seq<char>, field: Seq<char> },
    MemoryImport { memory: Memory, module: Seq<char>, field: Seq<char> },
    GlobalImport { global: Global, module: Seq<char>, field: Seq<char> },
    FinishImports,
    ReserveFuncTypes { num: u32 },
    FuncType { sig_index: SignatureIndex },
    ReserveTables { num: u32 },
    Table { table: Table },
    ReserveMemories { num: u32 },
    Memory { memory: Memory },
    ReserveGlobals { num: u32 },
    Global { global: Global },
    ReserveExports { num: u32 },
    FuncExport { func_index: FuncIndex, name: Seq<char> },
    TableExport { table_index: TableIndex, name: Seq<char> },
    MemoryExport { memory_index: MemoryIndex, name: Seq<char> },
    GlobalExport { global_index: GlobalIndex, name: Seq<char> },
    StartFunc { func_index: FuncIndex },
    ReserveTableElements { num: u32 },
    TableElements { elements: TableElementsView },
    FunctionBody { body: FunctionBodyView },
    ReserveDataInitializers { num: u32 },
    DataInitialization { initializer: DataInitializerView },
}

impl Declaration {
    /// Whether the policy of the sandbox forbids the declaration: an import
    /// or an export of a table, a memory or a global, or a start function.
    pub open spec fn forbidden(self) -> bool {
        self is TableImport || self is MemoryImport || self is GlobalImport || self is TableExport
            || self is MemoryExport || self is GlobalExport || self is StartFunc
    }

    /// The description of the error with which a forbidden declaration is
    /// rejected.
    pub open spec fn rejection(self) -> Seq<char> {
        match self {
            Declaration::TableImport { module, field, .. } => import_rejection(
                "table"@,
                module,
                field,
            ),
            Declaration::MemoryImport { module, field, .. } => import_rejection(
                "memory"@,
                module,
                field,
            ),
            Declaration::GlobalImport { module, field, .. } => import_rejection(
                "global"@,
                module,
                field,
            ),
            Declaration::TableExport { name, .. } => export_rejection("table"@, name),
            Declaration::MemoryExport { name, .. } => export_rejection("memory"@, name),
            Declaration::GlobalExport { name, .. } => export_rejection("global"@, name),
            _ => start_func_rejection(),
        }
    }
}

/// What the listener makes of one declaration: the translation that follows,
/// or the error with which it rejects the declaration.
pub open spec fn step(pre: TranslationView, declaration: Declaration) -> Result<
    TranslationView,
    WasmError,
> {
    if declaration.forbidden() {
        Err(unsupported_error(declaration.rejection()))
    } else {
        Ok(
            match declaration {
                Declaration::Signature { sig } => pre.declare_signature(sig),
                Declaration::FuncImport { sig_index, module, field } => pre.declare_func_import(
                    sig_index,
                    module,
                    field,
                ),
                Declaration::FuncType { sig_index } => pre.declare_func_type(sig_index),
                Declaration::Table { table } => pre.declare_table(table),
                Declaration::Memory { memory } => pre.declare_memory(memory),
                Declaration::Global { global } => pre.declare_global(global),
                Declaration::FuncExport { func_index, name } => pre.declare_func_export(
                    func_index,
                    name,
                ),
                Declaration::TableElements { elements } => pre.declare_table_elements(elements),
                Declaration::FunctionBody { body } => pre.define_function_body(body),
                Declaration::DataInitialization { initializer } => pre.declare_data_initialization(
                    initializer,
                ),
                _ => pre,
            },
        )
    }
}

/// What the listener makes of a run of declarations: the translation after
/// the last of them, or the error of the first that it rejects.
pub open spec fn run(pre: TranslationView, declarations: Seq<Declaration>) -> Result<
    TranslationView,
    WasmError,
>
    decreases declarations.len(),
{
    if declarations.len() == 0 {
        Ok(pre)
    } else {
        match run(pre, declarations.drop_last()) {
            Ok(translation) => step(translation, declarations.last()),
            Err(error) => Err(error),
        }
    }
}

/// Whether the decoder may report the declaration to a listener in the
/// given state: a function is imported only before the first local function.
pub open spec fn admissible(pre: TranslationView, declaration: Declaration) -> bool {
    declaration is FuncImport ==> pre.imports_open()
}

/// Whether each declaration of a run is admissible where it stands.
pub open spec fn orderly(pre: TranslationView, declarations: Seq<Declaration>) -> bool
    decreases declarations.len(),
{
    declarations.len() > 0 ==> {
        &&& orderly(pre, declarations.drop_last())
        &&& run(pre, declarations.drop_last()) is Ok ==> admissible(
            run(pre, declarations.drop_last())->Ok_0,
            declarations.last(),
        )
    }
}

/// Whether a listener that went from `pre` to `post` and returned `result`
/// did to the declaration what `step` says: it took it and went on to the
/// next translation, or it rejected it and stayed where it was.
pub open spec fn follows(
    pre: TranslationView,
    declaration: Declaration,
    post: TranslationView,
    result: WasmResult<()>,
) -> bool {
    match step(pre, declaration) {
        Ok(next) => result is Ok && post == next,
        Err(error) => result is Err && result->Err_0 == error && post == pre,
    }
}

/// The signatures of the functions that a run imports, in their order.
pub open spec fn imported_signatures(declarations: Seq<Declaration>) -> Seq<SignatureIndex>
    decreases declarations.len(),
{
    if declarations.len() == 0 {
        Seq::empty()
    } else {
        let before = imported_signatures(declarations.drop_last());
        match declarations.last() {
            Declaration::FuncImport { sig_index, .. } => before.push(sig_index),
            _ => before,
        }
    }
}

/// The module and field names of the functions that a run imports, in their
/// order.
pub open spec fn imported_names(declarations: Seq<Declaration>) -> Seq<(Seq<char>, Seq<char>)>
    decreases declarations.len(),
{
    if declarations.len() == 0 {
        Seq::empty()
    } else {
        let before = imported_names(declarations.drop_last());
        match declarations.last() {
            Declaration::FuncImport { module, field, .. } => before.push((module, field)),
            _ => before,
        }
    }
}

/// The signatures of the local functions that a run declares, in their order.
pub open spec fn local_signatures(declarations: Seq<Declaration>) -> Seq<SignatureIndex>
    decreases declarations.len(),
{
    if declarations.len() == 0 {
        Seq::empty()
    } else {
        let before = local_signatures(declarations.drop_last());
        match declarations.last() {
            Declaration::FuncType { sig_index } => before.push(sig_index),
            _ => before,
        }
    }
}

/// The function bodies that a run defines, in their order.
pub open spec fn defined_bodies(declarations: Seq<Declaration>) -> Seq<FunctionBodyView>
    decreases declarations.len(),
{
    if declarations.len() == 0 {
        Seq::empty()
    } else {
        let before = defined_bodies(declarations.drop_last());
        match declarations.last() {
            Declaration::FunctionBody { body } => before.push(body),
            _ => before,
        }
    }
}

/// The plans of the memories that a run declares, in their order, under the
/// given tunables.
pub open spec fn planned_memories(declarations: Seq<Declaration>, tunables: Tunables) -> Seq<
    MemoryPlan,
>
    decreases declarations.len(),
{
    if declarations.len() == 0 {
        Seq::empty()
    } else {
        let before = planned_memories(declarations.drop_last(), tunables);
        match declarations.last() {
            Declaration::Memory { memory } => before.push(
                MemoryPlan::spec_for_memory(memory, tunables),
            ),
            _ => before,
        }
    }
}

/// Whether every signature of a translation begins with the context
/// parameter and has no other.
pub open spec fn single_context(translation: TranslationView) -> bool {
    forall|i: int|
        0 <= i < translation.module.signatures.len() ==> has_single_context_param(
            #[trigger] translation.module.signatures[i],
            pointer_type_of(translation.target_config),
        )
}

/// Whether no signature that a run declares has a context parameter of its
/// own.
pub open spec fn declares_guest_signatures(declarations: Seq<Declaration>) -> bool {
    forall|i: int|
        0 <= i < declarations.len() && (#[trigger] declarations[i]) is Signature
            ==> declares_no_context(declarations[i]->sig)
}

/// A forbidden declaration is rejected as an unsupported feature, with the
/// description that names it, whatever has been declared before: the error
/// is the same in every state, and so each time the declaration is made.
pub proof fn lemma_forbidden_is_rejected(
    pre: TranslationView,
    other: TranslationView,
    declaration: Declaration,
)
    requires
        declaration.forbidden(),
    ensures
        step(pre, declaration) == Err::<TranslationView, WasmError>(
            unsupported_error(declaration.rejection()),
        ),
        step(other, declaration) == step(pre, declaration),
{
}

/// A declaration that is not forbidden is taken.
pub proof fn lemma_allowed_is_taken(pre: TranslationView, declaration: Declaration)
    requires
        !declaration.forbidden(),
    ensures
        step(pre, declaration) is Ok,
{
}

/// A run with a forbidden declaration yields no translation: it ends with
/// the error of the first forbidden declaration in it.
pub proof fn lemma_run_stops_at_forbidden(
    pre: TranslationView,
    declarations: Seq<Declaration>,
    first: int,
)
    requires
        0 <= first < declarations.len(),
        declarations[first].forbidden(),
        forall|i: int| 0 <= i < first ==> !(#[trigger] declarations[i]).forbidden(),
    ensures
        run(pre, declarations) == Err::<TranslationView, WasmError>(
            unsupported_error(declarations[first].rejection()),
        ),
    decreases declarations.len(),
{
    let before = declarations.drop_last();
    if first == declarations.len() - 1 {
        lemma_run_without_forbidden(pre, before);
    } else {
        lemma_run_stops_at_forbidden(pre, before, first);
    }
}

/// A run without a forbidden declaration yields a translation.
pub proof fn lemma_run_without_forbidden(pre: TranslationView, declarations: Seq<Declaration>)
    requires
        forall|i: int| 0 <= i < declarations.len() ==> !(#[trigger] declarations[i]).forbidden(),
    ensures
        run(pre, declarations) is Ok,
    decreases declarations.len(),
{
    if declarations.len() > 0 {
        lemma_run_without_forbidden(pre, declarations.drop_last());
    }
}

/// A run that yields a translation holds no forbidden declaration.
pub proof fn lemma_accepted_run_has_no_forbidden(
    pre: TranslationView,
    declarations: Seq<Declaration>,
)
    requires
        run(pre, declarations) is Ok,
    ensures
        forall|i: int| 0 <= i < declarations.len() ==> !(#[trigger] declarations[i]).forbidden(),
    decreases declarations.len(),
{
    if declarations.len() > 0 {
        let before = declarations.drop_last();
        lemma_accepted_run_has_no_forbidden(pre, before);
        assert forall|i: int| 0 <= i < declarations.len() implies !(
        #[trigger] declarations[i]).forbidden() by {
            if i < before.len() {
                assert(declarations[i] == before[i]);
            }
        }
    }
}

/// Whether a translation holds all that an earlier one held, where it held
/// it: each sequence has only grown at its end, the names that were exported
/// are still exported, and the target, the tunables and the state of the
/// decoder are the same.
pub open spec fn extends(post: TranslationView, pre: TranslationView) -> bool {
    &&& post.target_config == pre.target_config
    &&& post.tunables == pre.tunables
    &&& post.translate_state == pre.translate_state
    &&& pre.module.signatures.is_prefix_of(post.module.signatures)
    &&& pre.module.imported_funcs.is_prefix_of(post.module.imported_funcs)
    &&& pre.module.functions.is_prefix_of(post.module.functions)
    &&& pre.module.tables.is_prefix_of(post.module.tables)
    &&& pre.module.memory_plans.is_prefix_of(post.module.memory_plans)
    &&& pre.module.globals.is_prefix_of(post.module.globals)
    &&& pre.module.exports.dom().subset_of(post.module.exports.dom())
    &&& pre.module.table_elements.is_prefix_of(post.module.table_elements)
    &&& pre.function_bodies.is_prefix_of(post.function_bodies)
    &&& pre.data_initializers.is_prefix_of(post.data_initializers)
}

/// A declaration that is taken only adds to a translation.
pub proof fn lemma_step_only_appends(pre: TranslationView, declaration: Declaration)
    requires
        step(pre, declaration) is Ok,
    ensures
        extends(step(pre, declaration)->Ok_0, pre),
{
}

/// A run only adds to a translation: what has been declared keeps its place,
/// so that an index, once given, stays with what it was given to.
pub proof fn lemma_run_only_appends(pre: TranslationView, declarations: Seq<Declaration>)
    requires
        run(pre, declarations) is Ok,
    ensures
        extends(run(pre, declarations)->Ok_0, pre),
    decreases declarations.len(),
{
    if declarations.len() > 0 {
        let before = declarations.drop_last();
        lemma_run_only_appends(pre, before);
        lemma_step_only_appends(run(pre, before)->Ok_0, declarations.last());
    }
}

/// A run leaves a well-formed translation well formed: after every accepted
/// run, each signature of the module begins with the context parameter.
/// Where no declared signature has a context parameter of its own, each
/// signature of the module has exactly one.
pub proof fn lemma_run_keeps_signature_shape(pre: TranslationView, declarations: Seq<Declaration>)
    requires
        pre.wf(),
        run(pre, declarations) is Ok,
    ensures
        run(pre, declarations)->Ok_0.wf(),
        single_context(pre) && declares_guest_signatures(declarations) ==> single_context(
            run(pre, declarations)->Ok_0,
        ),
    decreases declarations.len(),
{
    if declarations.len() > 0 {
        let before = declarations.drop_last();
        let last = declarations.last();
        lemma_run_keeps_signature_shape(pre, before);
        lemma_run_only_appends(pre, before);
        if last is Signature {
            lemma_translated_signature_shape(last->sig, pointer_type_of(pre.target_config));
        }
        if declares_guest_signatures(declarations) {
            assert(declares_guest_signatures(before));
        }
    }
}

/// The index space of functions after an accepted run that begins with no
/// function: the imported functions come first, in the order of their
/// import and each with the signature and the names it was imported with,
/// and the local functions follow in the order of their declaration. So
/// there are as many functions as imports and local declarations together.
pub proof fn lemma_function_index_space(pre: TranslationView, declarations: Seq<Declaration>)
    requires
        pre.module.functions.len() == 0,
        pre.module.imported_funcs.len() == 0,
        orderly(pre, declarations),
        run(pre, declarations) is Ok,
    ensures
        ({
            let module = run(pre, declarations)->Ok_0.module;
            &&& module.functions == imported_signatures(declarations) + local_signatures(
                declarations,
            )
            &&& module.imported_funcs == imported_names(declarations)
            &&& imported_names(declarations).len() == imported_signatures(declarations).len()
            &&& module.functions.len() == module.imported_funcs.len() + local_signatures(
                declarations,
            ).len()
            &&& forall|i: int|
                0 <= i < module.imported_funcs.len() ==> #[trigger] module.functions[i]
                    == imported_signatures(declarations)[i]
        }),
    decreases declarations.len(),
{
    if declarations.len() > 0 {
        lemma_function_index_space(pre, declarations.drop_last());
    }
}

/// After an accepted run that begins with no function and no body, the
/// function bodies are those that the run defined, in their order. Where the
/// decoder defines one body for each local function that it declared, the
/// body of number `i` belongs to the function of number `i` behind the
/// imported ones.
pub proof fn lemma_function_bodies(pre: TranslationView, declarations: Seq<Declaration>)
    requires
        pre.module.functions.len() == 0,
        pre.module.imported_funcs.len() == 0,
        pre.function_bodies.len() == 0,
        orderly(pre, declarations),
        run(pre, declarations) is Ok,
    ensures
        run(pre, declarations)->Ok_0.function_bodies == defined_bodies(declarations),
        defined_bodies(declarations).len() == local_signatures(declarations).len() ==> run(
            pre,
            declarations,
        )->Ok_0.function_bodies.len() == run(pre, declarations)->Ok_0.local_func_count(),
    decreases declarations.len(),
{
    lemma_function_index_space(pre, declarations);
    lemma_bodies_are_defined(pre, declarations);
}

/// After an accepted run that begins with no body, the function bodies are
/// those that the run defined, in their order.
proof fn lemma_bodies_are_defined(pre: TranslationView, declarations: Seq<Declaration>)
    requires
        pre.function_bodies.len() == 0,
        run(pre, declarations) is Ok,
    ensures
        run(pre, declarations)->Ok_0.function_bodies == defined_bodies(declarations),
    decreases declarations.len(),
{
    if declarations.len() > 0 {
        lemma_bodies_are_defined(pre, declarations.drop_last());
    }
}

/// After an accepted run that begins without exports, every export names a
/// function that the run exported under that name: no index of a table, a
/// memory or a global is ever among the exports.
pub proof fn lemma_exports_are_function_exports(
    pre: TranslationView,
    declarations: Seq<Declaration>,
)
    requires
        pre.module.exports == Map::<Seq<char>, FuncIndex>::empty(),
        run(pre, declarations) is Ok,
    ensures
        forall|name: Seq<char>| #[trigger]
            run(pre, declarations)->Ok_0.module.exports.contains_key(name) ==> exists|i: int|
                0 <= i < declarations.len() && #[trigger] declarations[i]
                    == (Declaration::FuncExport {
                    func_index: run(pre, declarations)->Ok_0.module.exports[name],
                    name,
                }),
    decreases declarations.len(),
{
    if declarations.len() > 0 {
        let before = declarations.drop_last();
        lemma_exports_are_function_exports(pre, before);
        let exports = run(pre, declarations)->Ok_0.module.exports;
        assert forall|name: Seq<char>| #[trigger] exports.contains_key(name) implies exists|i: int|
            0 <= i < declarations.len() && #[trigger] declarations[i] == (Declaration::FuncExport {
                func_index: exports[name],
                name,
            }) by {
            let export = Declaration::FuncExport { func_index: exports[name], name };
            if declarations.last() != export {
                let i = choose|i: int|
                    0 <= i < before.len() && #[trigger] before[i] == (Declaration::FuncExport {
                        func_index: exports[name],
                        name,
                    });
                assert(declarations[i] == before[i]);
            }
        }
    }
}

/// After an accepted run that begins without memories, the memory plans are
/// the plans of the declared memories in their order, each drawn up from its
/// memory and the tunables alone: what else the run declares, and where, does
/// not change them.
pub proof fn lemma_memory_plans(pre: TranslationView, declarations: Seq<Declaration>)
    requires
        pre.module.memory_plans.len() == 0,
        run(pre, declarations) is Ok,
    ensures
        run(pre, declarations)->Ok_0.module.memory_plans == planned_memories(
            declarations,
            pre.tunables,
        ),
    decreases declarations.len(),
{
    if declarations.len() > 0 {
        let before = declarations.drop_last();
        lemma_memory_plans(pre, before);
        lemma_run_only_appends(pre, before);
    }
}

} // verus!
