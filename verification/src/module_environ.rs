//! The listener that a decoder of module binaries drives, and what it
//! produces.

use crate::capacity::{can_reserve, reserve_exact, shrink_to_fit};
use crate::cranelift::{pointer_type, pointer_type_of, unsupported, unsupported_error};
use crate::declarations::{follows, Declaration};
use crate::func_environ::{BuildOption, FuncEnvironment};
use crate::function_bodies::FunctionBodies;
use crate::module::{Memory, MemoryPlan, Module, TableElements, TableElementsView};
pub use crate::signature::translate_signature;
use crate::signature::Signature;
use crate::translation::{
    export_rejection, import_rejection, start_func_rejection, TranslationView,
};
use crate::tunables::Tunables;
use cranelift_codegen::ir::Type;
use cranelift_codegen::isa::TargetFrontendConfig;
use cranelift_wasm::{
    FuncIndex, Global, GlobalIndex, MemoryIndex, ModuleTranslationState, SignatureIndex, Table,
    TableIndex, WasmError, WasmResult,
};
use vstd::prelude::*;
use vstd::slice::slice_to_vec;
use vstd::std_specs::convert::FromSpecImpl;

verus! {

/// The body of a function: its byte code and where it stands in the module.
#[derive(Clone, Copy, Debug, Hash)]
pub struct FunctionBodyData<'a> {
    /// The byte code of the body.
    pub data: &'a [u8],
    /// The offset of the body in the module binary.
    pub module_offset: usize,
}

/// What a function body holds.
pub struct FunctionBodyView {
    /// The byte code of the body.
    pub data: Seq<u8>,
    /// The offset of the body in the module binary.
    pub module_offset: usize,
}

impl<'a> View for FunctionBodyData<'a> {
    type V = FunctionBodyView;

    open spec fn view(&self) -> FunctionBodyView {
        FunctionBodyView { data: self.data@, module_offset: self.module_offset }
    }
}

/// Where a data initializer writes: a memory, and an offset into it.
#[derive(Clone, Copy, Debug, PartialEq, Eq)]
pub struct DataInitializerLocation {
    /// The memory to initialize.
    pub memory_index: MemoryIndex,
    /// The global whose value is the base of the offset, if there is one.
    pub base: Option<GlobalIndex>,
    /// The constant offset.
    pub offset: usize,
}

/// What a data initializer holds, borrowed or owned.
pub struct DataInitializerView {
    /// Where the bytes go.
    pub location: DataInitializerLocation,
    /// The bytes.
    pub data: Seq<u8>,
}

/// A data initializer whose bytes lie in the module binary.
#[derive(Clone, Copy, Debug)]
pub struct DataInitializer<'data> {
    /// Where the bytes go.
    pub location: DataInitializerLocation,
    /// The bytes.
    pub data: &'data [u8],
}

impl<'data> View for DataInitializer<'data> {
    type V = DataInitializerView;

    open spec fn view(&self) -> DataInitializerView {
        DataInitializerView { location: self.location, data: self.data@ }
    }
}

impl DataInitializer<'_> {
    /// Copies the bytes, so that the initializer no longer depends on the
    /// module binary. The location and the bytes stay what they are.
    pub fn into_owned(self) -> (owned: OwnedDataInitializer)
        ensures
            owned@ == self@,
    {
        OwnedDataInitializer { location: self.location, data: slice_to_vec(self.data) }
    }
}

/// A data initializer that holds its bytes itself.
#[derive(Debug)]
pub struct OwnedDataInitializer {
    /// Where the bytes go.
    pub location: DataInitializerLocation,
    /// The bytes.
    pub data: Vec<u8>,
}

impl View for OwnedDataInitializer {
    type V = DataInitializerView;

    open spec fn view(&self) -> DataInitializerView {
        DataInitializerView { location: self.location, data: self.data@ }
    }
}

/// The initializer that borrows the bytes of an owned one.
pub open spec fn borrowed_from<'data>(owned: &'data OwnedDataInitializer) -> DataInitializer<
    'data,
> {
    DataInitializer {
        location: owned.location,
        data: choose|data: &'data [u8]| (#[trigger] data.view()) == owned.data@,
    }
}

impl<'data> From<&'data OwnedDataInitializer> for DataInitializer<'data> {
    /// The initializer that borrows the bytes of an owned one.
    fn from(owned: &'data OwnedDataInitializer) -> (borrowed: DataInitializer<'data>)
        ensures
            borrowed == borrowed_from(owned),
            borrowed@ == owned@,
    {
        let borrowed = DataInitializer { location: owned.location, data: owned.data.as_slice() };
        assert(borrowed.data =~= borrowed_from(owned).data);
        borrowed
    }
}

impl<'data> FromSpecImpl<&'data OwnedDataInitializer> for DataInitializer<'data> {
    open spec fn obeys_from_spec() -> bool {
        true
    }

    open spec fn from_spec(owned: &'data OwnedDataInitializer) -> DataInitializer<'data> {
        borrowed_from(owned)
    }
}

/// An initializer that went from borrowed to owned and back is the
/// initializer that it was at first, the same bytes for the same location:
/// where `owned` holds what `initializer` holds, as `into_owned` leaves it,
/// the initializer that borrows from `owned` is `initializer`.
pub proof fn lemma_owned_round_trip<'data>(
    initializer: DataInitializer<'data>,
    owned: &'data OwnedDataInitializer,
)
    requires
        owned@ == initializer@,
    ensures
        borrowed_from(owned) == initializer,
{
    assert(initializer.data@ == owned.data@);
    assert(borrowed_from(owned).data =~= initializer.data);
}

/// What the listener has made of a module. The function bodies are not yet
/// translated, and the data initializers still lie in the module binary.
pub struct ModuleTranslation<'data> {
    /// The configuration of the target.
    pub target_config: TargetFrontendConfig,
    /// The module.
    pub module: Module,
    /// The bodies of the functions that the module defines.
    pub function_body_inputs: FunctionBodies<'data>,
    /// The data initializers.
    pub data_initializers: Vec<DataInitializer<'data>>,
    /// What the decoder keeps of the module for the translation of the bodies.
    pub translate_state: ModuleTranslationState,
    /// The tunables under which the memories were planned.
    pub tunables: Tunables,
}

impl<'data> View for ModuleTranslation<'data> {
    type V = TranslationView;

    open spec fn view(&self) -> TranslationView {
        TranslationView {
            target_config: self.target_config,
            module: self.module@,
            function_bodies: self.function_body_inputs@,
            data_initializers: Seq::new(
                self.data_initializers@.len(),
                |i: int| self.data_initializers@[i]@,
            ),
            translate_state: self.translate_state,
            tunables: self.tunables,
        }
    }
}

impl<'data> ModuleTranslation<'data> {
    /// Returns a fresh environment for the translation of one function.
    pub fn func_env(&self, build_option: BuildOption) -> (env: FuncEnvironment<'_>)
        ensures
            env.target_config == self.target_config,
            *env.module == self.module,
            env.build_option == build_option,
    {
        FuncEnvironment::new(self.target_config, &self.module, build_option)
    }
}

/// The error for an import that is not a function.
fn import_rejected(kind: &str, module: &str, field: &str) -> (error: WasmError)
    ensures
        error == unsupported_error(import_rejection(kind@, module@, field@)),
{
    let mut description = String::from_str("can not import ");
    description.append(kind);
    description.append(" from ");
    description.append(module);
    description.append(".");
    description.append(field);
    unsupported(description)
}

/// The error for an export that is not a function.
fn export_rejected(kind: &str, name: &str) -> (error: WasmError)
    ensures
        error == unsupported_error(export_rejection(kind@, name@)),
{
    let mut description = String::from_str("can not export ");
    description.append(kind);
    description.append(" ");
    description.append(name);
    unsupported(description)
}

/// The listener: it takes the declarations of a module in the order in which
/// the decoder finds them, and gathers them into a `ModuleTranslation`.
pub struct ModuleEnvironment<'data> {
    /// The translation so far.
    result: ModuleTranslation<'data>,
}

impl<'data> View for ModuleEnvironment<'data> {
    type V = TranslationView;

    closed spec fn view(&self) -> TranslationView {
        self.result@
    }
}

impl<'data> ModuleEnvironment<'data> {
    /// Whether the translation so far is well formed.
    pub open spec fn wf(&self) -> bool {
        self@.wf()
    }

    /// Creates a listener that has not heard of any declaration.
    pub fn new(target_config: TargetFrontendConfig, tunables: Tunables) -> (env: Self)
        ensures
            env.wf(),
            env@ == TranslationView::initial(target_config, tunables, env@.translate_state),
    {
        let env = ModuleEnvironment {
            result: ModuleTranslation {
                target_config,
                module: Module::new(),
                function_body_inputs: FunctionBodies::new(),
                data_initializers: Vec::new(),
                tunables,
                translate_state: ModuleTranslationState::new(),
            },
        };
        assert(env@.data_initializers =~= Seq::empty());
        env
    }

    /// The translation so far.
    pub fn result(&self) -> (result: &ModuleTranslation<'data>)
        ensures
            result@ == self@,
    {
        &self.result
    }

    /// The pointer type of the target.
    fn pointer_type(&self) -> (t: Type)
        ensures
            t == pointer_type_of(self@.target_config),
    {
        pointer_type(self.result.target_config)
    }

    /// Ends the translation with what the decoder reports: where it read the
    /// whole module, its state goes into the translation, which is handed
    /// out; where it failed, or a declaration was rejected, the error is
    /// handed on and no translation comes out.
    pub fn translate(self, decoded: WasmResult<ModuleTranslationState>) -> (translation: WasmResult<
        ModuleTranslation<'data>,
    >)
        requires
            self.wf(),
        ensures
            match decoded {
                Ok(state) => translation is Ok && translation->Ok_0@ == self@.finish(state)
                    && translation->Ok_0@.wf(),
                Err(error) => translation is Err && translation->Err_0 == error,
            },
    {
        let mut env = self;
        match decoded {
            Ok(state) => {
                env.result.translate_state = state;
                Ok(env.result)
            },
            Err(error) => Err(error),
        }
    }

    /// The configuration of the target.
    pub fn target_config(&self) -> (config: TargetFrontendConfig)
        ensures
            config == self@.target_config,
    {
        self.result.target_config
    }

    /// Makes room for `num` signatures. What has been declared stays as it is.
    pub fn reserve_signatures(&mut self, num: u32) -> (result: WasmResult<()>)
        requires
            can_reserve::<Signature>(old(self)@.module.signatures.len(), num as nat),
        ensures
            result is Ok,
            final(self)@ == old(self)@,
            follows(
                old(self)@,
                (Declaration::ReserveSignatures { num }),
                final(self)@,
                result,
            ),
    {
        reserve_exact(&mut self.result.module.signatures, num as usize);
        Ok(())
    }

    /// Declares a signature: it is given the context parameter and becomes
    /// the next signature of the module.
    pub fn declare_signature(&mut self, sig: Signature) -> (result: WasmResult<()>)
        requires
            old(self).wf(),
        ensures
            result is Ok,
            final(self).wf(),
            final(self)@ == old(self)@.declare_signature(sig@),
            follows(
                old(self)@,
                (Declaration::Signature { sig: sig@ }),
                final(self)@,
                result,
            ),
    {
        let ghost declared = sig@;
        let sig = translate_signature(sig, self.pointer_type());
        self.result.module.signatures.push(sig);
        assert(self@.module.signatures =~= old(self)@.declare_signature(
            declared,
        ).module.signatures);
        Ok(())
    }

    /// Declares an imported function of the given signature. Every import
    /// comes before the first local function.
    pub fn declare_func_import(
        &mut self,
        sig_index: SignatureIndex,
        module: &str,
        field: &str,
    ) -> (result: WasmResult<()>)
        requires
            old(self).wf(),
            old(self)@.imports_open(),
        ensures
            result is Ok,
            final(self).wf(),
            final(self)@ == old(self)@.declare_func_import(sig_index, module@, field@),
            follows(
                old(self)@,
                (Declaration::FuncImport { sig_index, module: module@, field: field@ }),
                final(self)@,
                result,
            ),
    {
        self.result.module.functions.push(sig_index);
        self.result.module.imported_funcs.push((String::from_str(module), String::from_str(field)));
        assert(self@.module.imported_funcs =~= old(self)@.module.imported_funcs.push(
            (module@, field@),
        ));
        assert(self@ == old(self)@.declare_func_import(sig_index, module@, field@));
        Ok(())
    }

    /// Rejects the import of a table: the sandbox takes no table from outside.
    pub fn declare_table_import(&mut self, _table: Table, module: &str, field: &str) -> (result:
        WasmResult<()>)
        ensures
            result is Err,
            result->Err_0 == unsupported_error(import_rejection("table"@, module@, field@)),
            *final(self) == *old(self),
            follows(
                old(self)@,
                (Declaration::TableImport { table: _table, module: module@, field: field@ }),
                final(self)@,
                result,
            ),
    {
        Err(import_rejected("table", module, field))
    }

    /// Rejects the import of a memory: the sandbox takes no memory from outside.
    pub fn declare_memory_import(&mut self, _memory: Memory, module: &str, field: &str) -> (result:
        WasmResult<()>)
        ensures
            result is Err,
            result->Err_0 == unsupported_error(import_rejection("memory"@, module@, field@)),
            *final(self) == *old(self),
            follows(
                old(self)@,
                (Declaration::MemoryImport { memory: _memory, module: module@, field: field@ }),
                final(self)@,
                result,
            ),
    {
        Err(import_rejected("memory", module, field))
    }

    /// Rejects the import of a global: the sandbox takes no global from outside.
    pub fn declare_global_import(&mut self, _global: Global, module: &str, field: &str) -> (result:
        WasmResult<()>)
        ensures
            result is Err,
            result->Err_0 == unsupported_error(import_rejection("global"@, module@, field@)),
            *final(self) == *old(self),
            follows(
                old(self)@,
                (Declaration::GlobalImport { global: _global, module: module@, field: field@ }),
                final(self)@,
                result,
            ),
    {
        Err(import_rejected("global", module, field))
    }

    /// Ends the imports: storage that they do not use is given back. What has
    /// been declared stays as it is.
    pub fn finish_imports(&mut self) -> (result: WasmResult<()>)
        ensures
            result is Ok,
            final(self)@ == old(self)@,
            follows(
                old(self)@,
                (Declaration::FinishImports),
                final(self)@,
                result,
            ),
    {
        shrink_to_fit(&mut self.result.module.imported_funcs);
        Ok(())
    }

    /// Makes room for `num` local functions and their bodies. What has been
    /// declared stays as it is.
    pub fn reserve_func_types(&mut self, num: u32) -> (result: WasmResult<()>)
        requires
            can_reserve::<SignatureIndex>(old(self)@.module.functions.len(), num as nat),
            can_reserve::<FunctionBodyData<'data>>(old(self)@.function_bodies.len(), num as nat),
        ensures
            result is Ok,
            final(self)@ == old(self)@,
            follows(
                old(self)@,
                (Declaration::ReserveFuncTypes { num }),
                final(self)@,
                result,
            ),
    {
        reserve_exact(&mut self.result.module.functions, num as usize);
        self.result.function_body_inputs.reserve_exact(num as usize);
        Ok(())
    }

    /// Declares a local function of the given signature: it becomes the next
    /// function of the module, behind the imported ones.
    pub fn declare_func_type(&mut self, sig_index: SignatureIndex) -> (result: WasmResult<()>)
        requires
            old(self).wf(),
        ensures
            result is Ok,
            final(self).wf(),
            final(self)@ == old(self)@.declare_func_type(sig_index),
            follows(
                old(self)@,
                (Declaration::FuncType { sig_index }),
                final(self)@,
                result,
            ),
    {
        self.result.module.functions.push(sig_index);
        assert(self@ == old(self)@.declare_func_type(sig_index));
        Ok(())
    }

    /// Makes room for `num` tables. What has been declared stays as it is.
    pub fn reserve_tables(&mut self, num: u32) -> (result: WasmResult<()>)
        requires
            can_reserve::<Table>(old(self)@.module.tables.len(), num as nat),
        ensures
            result is Ok,
            final(self)@ == old(self)@,
            follows(
                old(self)@,
                (Declaration::ReserveTables { num }),
                final(self)@,
                result,
            ),
    {
        reserve_exact(&mut self.result.module.tables, num as usize);
        Ok(())
    }

    /// Declares a table: it becomes the next table of the module.
    pub fn declare_table(&mut self, table: Table) -> (result: WasmResult<()>)
        requires
            old(self).wf(),
        ensures
            result is Ok,
            final(self).wf(),
            final(self)@ == old(self)@.declare_table(table),
            follows(
                old(self)@,
                (Declaration::Table { table }),
                final(self)@,
                result,
            ),
    {
        self.result.module.tables.push(table);
        assert(self@ == old(self)@.declare_table(table));
        Ok(())
    }

    /// Makes room for `num` memories. What has been declared stays as it is.
    pub fn reserve_memories(&mut self, num: u32) -> (result: WasmResult<()>)
        requires
            can_reserve::<MemoryPlan>(old(self)@.module.memory_plans.len(), num as nat),
        ensures
            result is Ok,
            final(self)@ == old(self)@,
            follows(
                old(self)@,
                (Declaration::ReserveMemories { num }),
                final(self)@,
                result,
            ),
    {
        reserve_exact(&mut self.result.module.memory_plans, num as usize);
        Ok(())
    }

    /// Declares a memory: its plan, drawn up under the tunables of the
    /// translation, becomes the next memory plan of the module.
    pub fn declare_memory(&mut self, memory: Memory) -> (result: WasmResult<()>)
        requires
            old(self).wf(),
        ensures
            result is Ok,
            final(self).wf(),
            final(self)@ == old(self)@.declare_memory(memory),
            follows(
                old(self)@,
                (Declaration::Memory { memory }),
                final(self)@,
                result,
            ),
    {
        let plan = MemoryPlan::for_memory(memory, &self.result.tunables);
        self.result.module.memory_plans.push(plan);
        assert(self@ == old(self)@.declare_memory(memory));
        Ok(())
    }

    /// Makes room for `num` globals. What has been declared stays as it is.
    pub fn reserve_globals(&mut self, num: u32) -> (result: WasmResult<()>)
        requires
            can_reserve::<Global>(old(self)@.module.globals.len(), num as nat),
        ensures
            result is Ok,
            final(self)@ == old(self)@,
            follows(
                old(self)@,
                (Declaration::ReserveGlobals { num }),
                final(self)@,
                result,
            ),
    {
        reserve_exact(&mut self.result.module.globals, num as usize);
        Ok(())
    }

    /// Declares a global: it becomes the next global of the module.
    pub fn declare_global(&mut self, global: Global) -> (result: WasmResult<()>)
        requires
            old(self).wf(),
        ensures
            result is Ok,
            final(self).wf(),
            final(self)@ == old(self)@.declare_global(global),
            follows(
                old(self)@,
                (Declaration::Global { global }),
                final(self)@,
                result,
            ),
    {
        self.result.module.globals.push(global);
        assert(self@ == old(self)@.declare_global(global));
        Ok(())
    }

    /// Makes room for `num` exports. What has been declared stays as it is.
    pub fn reserve_exports(&mut self, num: u32) -> (result: WasmResult<()>)
        ensures
            result is Ok,
            final(self)@ == old(self)@,
            follows(
                old(self)@,
                (Declaration::ReserveExports { num }),
                final(self)@,
                result,
            ),
    {
        self.result.module.exports.reserve(num as usize);
        Ok(())
    }

    /// Exports a function under a name. Where the name is already exported,
    /// it names the new function from now on.
    pub fn declare_func_export(&mut self, func_index: FuncIndex, name: &str) -> (result:
        WasmResult<()>)
        requires
            old(self).wf(),
        ensures
            result is Ok,
            final(self).wf(),
            final(self)@ == old(self)@.declare_func_export(func_index, name@),
            follows(
                old(self)@,
                (Declaration::FuncExport { func_index, name: name@ }),
                final(self)@,
                result,
            ),
    {
        self.result.module.exports.insert(String::from_str(name), func_index);
        assert(self@ == old(self)@.declare_func_export(func_index, name@));
        Ok(())
    }

    /// Rejects the export of a table: tables belong to the runtime alone.
    pub fn declare_table_export(&mut self, _table_index: TableIndex, name: &str) -> (result:
        WasmResult<()>)
        ensures
            result is Err,
            result->Err_0 == unsupported_error(export_rejection("table"@, name@)),
            *final(self) == *old(self),
            follows(
                old(self)@,
                (Declaration::TableExport { table_index: _table_index, name: name@ }),
                final(self)@,
                result,
            ),
    {
        Err(export_rejected("table", name))
    }

    /// Rejects the export of a memory: memories belong to the runtime alone.
    pub fn declare_memory_export(&mut self, _memory_index: MemoryIndex, name: &str) -> (result:
        WasmResult<()>)
        ensures
            result is Err,
            result->Err_0 == unsupported_error(export_rejection("memory"@, name@)),
            *final(self) == *old(self),
            follows(
                old(self)@,
                (Declaration::MemoryExport { memory_index: _memory_index, name: name@ }),
                final(self)@,
                result,
            ),
    {
        Err(export_rejected("memory", name))
    }

    /// Rejects the export of a global: globals belong to the runtime alone.
    pub fn declare_global_export(&mut self, _global_index: GlobalIndex, name: &str) -> (result:
        WasmResult<()>)
        ensures
            result is Err,
            result->Err_0 == unsupported_error(export_rejection("global"@, name@)),
            *final(self) == *old(self),
            follows(
                old(self)@,
                (Declaration::GlobalExport { global_index: _global_index, name: name@ }),
                final(self)@,
                result,
            ),
    {
        Err(export_rejected("global", name))
    }

    /// Rejects a start function: the runtime alone decides what runs.
    pub fn declare_start_func(&mut self, _func_index: FuncIndex) -> (result: WasmResult<()>)
        ensures
            result is Err,
            result->Err_0 == unsupported_error(start_func_rejection()),
            *final(self) == *old(self),
            follows(
                old(self)@,
                (Declaration::StartFunc { func_index: _func_index }),
                final(self)@,
                result,
            ),
    {
        Err(unsupported(String::from_str("can not has start func")))
    }

    /// Makes room for `num` element segments. What has been declared stays
    /// as it is.
    pub fn reserve_table_elements(&mut self, num: u32) -> (result: WasmResult<()>)
        requires
            can_reserve::<TableElements>(old(self)@.module.table_elements.len(), num as nat),
        ensures
            result is Ok,
            final(self)@ == old(self)@,
            follows(
                old(self)@,
                (Declaration::ReserveTableElements { num }),
                final(self)@,
                result,
            ),
    {
        reserve_exact(&mut self.result.module.table_elements, num as usize);
        Ok(())
    }

    /// Declares an element segment: it becomes the next one of the module.
    /// Whether the table exists is for a later stage to check.
    pub fn declare_table_elements(
        &mut self,
        table_index: TableIndex,
        base: Option<GlobalIndex>,
        offset: usize,
        elements: Box<[FuncIndex]>,
    ) -> (result: WasmResult<()>)
        requires
            old(self).wf(),
        ensures
            result is Ok,
            final(self).wf(),
            final(self)@ == old(self)@.declare_table_elements(
                TableElementsView { table_index, base, offset, elements: elements@ },
            ),
            follows(
                old(self)@,
                (Declaration::TableElements {
                    elements: TableElementsView { table_index, base, offset, elements: elements@ },
                }),
                final(self)@,
                result,
            ),
    {
        let ghost segment = TableElementsView { table_index, base, offset, elements: elements@ };
        self.result.module.table_elements.push(
            TableElements { table_index, base, offset, elements },
        );
        assert(self@.module.table_elements =~= old(self)@.module.table_elements.push(segment));
        assert(self@ == old(self)@.declare_table_elements(segment));
        Ok(())
    }

    /// Takes the body of the next local function as it stands in the module
    /// binary. The body is neither parsed nor compiled here.
    pub fn define_function_body(
        &mut self,
        _module_translation_state: &ModuleTranslationState,
        body_bytes: &'data [u8],
        body_offset: usize,
    ) -> (result: WasmResult<()>)
        requires
            old(self).wf(),
            old(self)@.function_bodies.len() < u32::MAX,
        ensures
            result is Ok,
            final(self).wf(),
            final(self)@ == old(self)@.define_function_body(
                FunctionBodyView { data: body_bytes@, module_offset: body_offset },
            ),
            follows(
                old(self)@,
                (Declaration::FunctionBody {
                    body: FunctionBodyView { data: body_bytes@, module_offset: body_offset },
                }),
                final(self)@,
                result,
            ),
    {
        self.result.function_body_inputs.push(
            FunctionBodyData { data: body_bytes, module_offset: body_offset },
        );
        Ok(())
    }

    /// Makes room for `num` data initializers. What has been declared stays
    /// as it is.
    pub fn reserve_data_initializers(&mut self, num: u32) -> (result: WasmResult<()>)
        requires
            can_reserve::<DataInitializer<'data>>(old(self)@.data_initializers.len(), num as nat),
        ensures
            result is Ok,
            final(self)@ == old(self)@,
            follows(
                old(self)@,
                (Declaration::ReserveDataInitializers { num }),
                final(self)@,
                result,
            ),
    {
        reserve_exact(&mut self.result.data_initializers, num as usize);
        Ok(())
    }

    /// Declares a data initializer: it becomes the next one of the
    /// translation. Whether it fits the memory is for a later stage to check.
    pub fn declare_data_initialization(
        &mut self,
        memory_index: MemoryIndex,
        base: Option<GlobalIndex>,
        offset: usize,
        data: &'data [u8],
    ) -> (result: WasmResult<()>)
        requires
            old(self).wf(),
        ensures
            result is Ok,
            final(self).wf(),
            final(self)@ == old(self)@.declare_data_initialization(
                DataInitializerView {
                    location: DataInitializerLocation { memory_index, base, offset },
                    data: data@,
                },
            ),
            follows(
                old(self)@,
                (Declaration::DataInitialization {
                    initializer: DataInitializerView {
                        location: DataInitializerLocation { memory_index, base, offset },
                        data: data@,
                    },
                }),
                final(self)@,
                result,
            ),
    {
        let ghost initializer = DataInitializerView {
            location: DataInitializerLocation { memory_index, base, offset },
            data: data@,
        };
        let location = DataInitializerLocation { memory_index, base, offset };
        self.result.data_initializers.push(DataInitializer { location, data });
        assert(self@.data_initializers =~= old(self)@.data_initializers.push(initializer));
        Ok(())
    }
}

} // verus!
