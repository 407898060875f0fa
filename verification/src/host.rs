//! The host's side of the sandboxing engine: the capabilities as the engine
//! calls them, and the instance that the orchestrator builds and runs.
//!
//! The engine's values are opaque here. Each call into it stands in a small
//! trusted function of its own; what is done with the results is verified.
//! The names that the host looks up, the length that it asks a guest for and
//! the order in which it binds its capabilities come from verified
//! functions, and the trusted functions demand them.

use crate::context::{
    reports_view, spec_produce, spec_text_report, spec_transform_report, transform_request,
    ClientExtensionState, ContextView, GuestAllocation, Report,
};
use crate::error::{ErrorKind, Failure, HostError};
use crate::layout::TRANSFORM_SIZE;
use crate::lifecycle::{
    check_exports, closing_event, run_outcome, spec_phase_after_run, spec_run_outcome, Event,
    Phase,
};
use crate::surface::{
    allocator_export, entry_point_export, memory_export, spec_allocator_export,
    spec_entry_point_export, spec_memory_export, Capability, IMPORT_COUNT,
};
use vstd::prelude::*;
use wasmtime::{Caller, Engine, Extern, Func, Instance, Module, Store, TypedFunc};

verus! {

/// `wasmtime::Caller`, opaque: what a host function is handed when a guest
/// calls it, the calling instance together with its store.
#[verifier::external_type_specification]
#[verifier::external_body]
#[verifier::reject_recursive_types(T)]
pub struct ExCaller<'a, T: 'static>(Caller<'a, T>);

/// `wasmtime::Store`, opaque: owns the instances made in it, their memories
/// and one value of the host's, here the context of the one instance.
#[verifier::external_type_specification]
#[verifier::external_body]
#[verifier::reject_recursive_types(T)]
pub struct ExStore<T: 'static>(Store<T>);

/// `wasmtime::TypedFunc`, opaque: a function of a store, with its
/// parameter and result types checked.
#[verifier::external_type_specification]
#[verifier::external_body]
#[verifier::reject_recursive_types(Params)]
#[verifier::reject_recursive_types(Results)]
pub struct ExTypedFunc<Params, Results>(TypedFunc<Params, Results>);

/// `wasmtime::Engine`, opaque: the compiler and its configuration.
#[verifier::external_type_specification]
#[verifier::external_body]
pub struct ExEngine(Engine);

/// `wasmtime::Module`, opaque: a compiled module.
#[verifier::external_type_specification]
#[verifier::external_body]
pub struct ExModule(Module);

/// `wasmtime::Instance`, opaque: a handle on an instance in some store.
#[verifier::external_type_specification]
#[verifier::external_body]
pub struct ExInstance(Instance);

/// `wasmtime::Extern`, opaque: a handle on something that a module imports
/// or exports.
#[verifier::external_type_specification]
#[verifier::external_body]
pub struct ExExtern(Extern);

/// `wasmtime::Error`, opaque: why a call into the engine failed.
#[verifier::external_type_specification]
#[verifier::external_body]
pub struct ExEngineError(wasmtime::Error);

/// The bytes of the linear memory that the instance behind `caller` exports
/// under the name `memory`: what `Memory::data_and_store_mut` hands out.
pub uninterp spec fn caller_memory(caller: Caller<'_, ClientExtensionState>) -> Seq<u8>;

/// Whether the instance behind `caller` exports a linear memory under the
/// name `memory`: whether `Caller::get_export` finds one.
pub uninterp spec fn caller_has_memory(caller: Caller<'_, ClientExtensionState>) -> bool;

/// Whether the instance behind `caller` exports a function `alloc` that
/// takes one 32-bit integer and gives one: whether `Caller::get_export`,
/// `Extern::into_func` and `Func::typed` find one.
pub uninterp spec fn caller_has_allocator(caller: Caller<'_, ClientExtensionState>) -> bool;

/// The context of the instance behind `caller`: what `Caller::data_mut`
/// hands out.
pub uninterp spec fn caller_context(caller: Caller<'_, ClientExtensionState>) -> ContextView;

/// The context that `store` holds: what `Store::data_mut` hands out.
pub uninterp spec fn store_context(store: Store<ClientExtensionState>) -> ContextView;

/// The capability that an import runs: which of the host's functions
/// `Func::try_wrap` wrapped to make it.
pub uninterp spec fn bound_capability(import: Extern) -> Capability;

/// The memory that a host function finds, `None` where the calling
/// instance exports none.
pub open spec fn caller_view(caller: Caller<'_, ClientExtensionState>) -> Option<Seq<u8>> {
    if caller_has_memory(caller) {
        Some(caller_memory(caller))
    } else {
        None
    }
}

/// The calling instance's context, borrowed with `Caller::data_mut`.
///
/// What is borrowed is what `caller_context` stands for, and what the
/// borrower leaves there is the caller's context afterwards. The borrow
/// reaches the context only: the caller's memory stays as it is.
#[verifier::external_body]
fn caller_state<'a>(caller: &'a mut Caller<'_, ClientExtensionState>) -> (state:
    &'a mut ClientExtensionState)
    ensures
        state@ == caller_context(*old(caller)),
        final(state)@ == caller_context(*final(caller)),
        caller_has_memory(*final(caller)) == caller_has_memory(*old(caller)),
        caller_memory(*final(caller)) == caller_memory(*old(caller)),
{
    caller.data_mut()
}

/// The calling instance's linear memory, if it exports one under the name
/// `memory`, and its context, both at once.
///
/// Calls `Caller::get_export`, and `Memory::data_and_store_mut` on the
/// memory found (`Caller::data_mut` where none is found). What comes back
/// is what the names above stand for, and what the borrower leaves there is
/// what the caller holds afterwards. What an instance exports is laid down
/// by its module and does not change. Nothing is claimed of what memory and
/// context hold.
#[verifier::external_body]
fn guest_view<'a>(caller: &'a mut Caller<'_, ClientExtensionState>, memory: &str) -> (view: (
    Option<&'a mut [u8]>,
    &'a mut ClientExtensionState,
))
    requires
        memory@ == spec_memory_export(),
    ensures
        view.0 is Some <==> caller_has_memory(*old(caller)),
        view.0 matches Some(bytes) ==> bytes@ == caller_memory(*old(caller)),
        view.0 matches Some(bytes) ==> final(bytes)@ == caller_memory(*final(caller)),
        view.1@ == caller_context(*old(caller)),
        final(view.1)@ == caller_context(*final(caller)),
        caller_has_memory(*final(caller)) == caller_has_memory(*old(caller)),
{
    match caller.get_export(memory) {
        Some(Extern::Memory(found)) => {
            let (bytes, state) = found.data_and_store_mut(caller);
            (Some(bytes), state)
        },
        _ => (None, caller.data_mut()),
    }
}

/// Asks the calling instance's own allocator for the bytes of a transform.
///
/// Looks up the export `allocator` with `Caller::get_export`, takes it as a
/// function from one 32-bit integer to one with `Extern::into_func` and
/// `Func::typed`, and calls it once with `TypedFunc::call`. `None` where the
/// instance exports no such function; else what the call gave.
///
/// Nothing is claimed of what the guest's code answers or of what it leaves
/// in its memory and context. What an instance exports is laid down by its
/// module, so the call does not change whether it exports a memory.
#[verifier::external_body]
fn call_guest_alloc(
    caller: &mut Caller<'_, ClientExtensionState>,
    allocator: &str,
    length: u32,
) -> (answer: Option<Result<u32, wasmtime::Error>>)
    requires
        allocator@ == spec_allocator_export(),
        length == TRANSFORM_SIZE,
    ensures
        answer is None <==> !caller_has_allocator(*old(caller)),
        caller_has_memory(*final(caller)) == caller_has_memory(*old(caller)),
{
    let alloc = caller.get_export(allocator)?.into_func()?.typed::<u32, u32>(&*caller).ok()?;
    Some(alloc.call(caller, length))
}

/// An engine error that carries `message`, made with `Error::msg`. A host
/// function that returns it traps the guest.
#[verifier::external_body]
fn engine_error(message: String) -> (error: wasmtime::Error) {
    wasmtime::Error::msg(message)
}

/// The engine's account of an error, with the chain of causes and the
/// backtrace where it has one: the error's `Debug` form. Nothing is claimed
/// of the text.
#[verifier::external_body]
fn error_text(error: &wasmtime::Error) -> (text: String) {
    format!("{error:?}")
}

/// `identify` for the instance behind `caller`: a report under its name is
/// added to its context. Its memory is not touched.
pub fn identify(caller: &mut Caller<'_, ClientExtensionState>)
    ensures
        caller_context(*final(caller)) == caller_context(*old(caller)).identify(),
        caller_view(*final(caller)) == caller_view(*old(caller)),
{
    caller_state(caller).identify();
}

/// `emit-text` for the instance behind `caller`: the nul-terminated text at
/// `offset` of the memory that it exports is added to its context as a
/// report, or the failure is recorded there. Its memory is left as it is.
pub fn emit_text(caller: &mut Caller<'_, ClientExtensionState>, offset: u32) -> (result: Result<
    (),
    HostError,
>)
    ensures
        caller_context(*final(caller)) == caller_context(*old(caller)).conclude(
            spec_text_report(
                caller_context(*old(caller)).name,
                caller_view(*old(caller)),
                offset as int,
            ),
        ),
        match spec_text_report(
            caller_context(*old(caller)).name,
            caller_view(*old(caller)),
            offset as int,
        ) {
            Ok(_) => result is Ok,
            Err(error) => result == Err::<(), HostError>(error),
        },
        caller_view(*final(caller)) == caller_view(*old(caller)),
{
    let (memory, state) = guest_view(caller, memory_export());
    match memory {
        Some(bytes) => state.emit_text(Some(&*bytes), offset),
        None => state.emit_text(None, offset),
    }
}

/// `emit-transform` for the instance behind `caller`: the transform at
/// `offset` of the memory that it exports is added to its context as a
/// report, or the failure is recorded there. Its memory is left as it is.
pub fn emit_transform(caller: &mut Caller<'_, ClientExtensionState>, offset: u32) -> (result:
    Result<(), HostError>)
    ensures
        caller_context(*final(caller)) == caller_context(*old(caller)).conclude(
            spec_transform_report(
                caller_context(*old(caller)).name,
                caller_view(*old(caller)),
                offset as int,
            ),
        ),
        match spec_transform_report(
            caller_context(*old(caller)).name,
            caller_view(*old(caller)),
            offset as int,
        ) {
            Ok(_) => result is Ok,
            Err(error) => result == Err::<(), HostError>(error),
        },
        caller_view(*final(caller)) == caller_view(*old(caller)),
{
    let (memory, state) = guest_view(caller, memory_export());
    match memory {
        Some(bytes) => state.emit_transform(Some(&*bytes), offset),
        None => state.emit_transform(None, offset),
    }
}

/// The second half of `produce-transform` for the instance behind
/// `caller`, once its allocator has answered `allocation`: the host's
/// transform is written into the memory that the instance exports, at the
/// offset that the allocator gave, and that offset is returned. On failure
/// the memory is left as it is and the failure is recorded in the context.
pub fn deliver_transform(
    caller: &mut Caller<'_, ClientExtensionState>,
    allocation: GuestAllocation,
) -> (result: Result<u32, HostError>)
    ensures
        match spec_produce(allocation, caller_view(*old(caller))) {
            Ok((offset, written)) => {
                &&& result == Ok::<u32, HostError>(offset)
                &&& caller_context(*final(caller)) == caller_context(*old(caller))
                &&& caller_view(*final(caller)) == Some(written)
            },
            Err(error) => {
                &&& result == Err::<u32, HostError>(error)
                &&& caller_context(*final(caller)) == caller_context(*old(caller)).with_failure(
                    error,
                )
                &&& caller_view(*final(caller)) == caller_view(*old(caller))
            },
        },
{
    let (memory, state) = guest_view(caller, memory_export());
    state.produce_transform(allocation, memory)
}

/// What the guest's allocator answered, without the engine's error.
fn classify_allocation(answer: &Option<Result<u32, wasmtime::Error>>) -> (allocation:
    GuestAllocation)
    ensures
        *answer is None ==> allocation == GuestAllocation::Missing,
        *answer matches Some(Err(_)) ==> allocation == GuestAllocation::Failed,
        *answer matches Some(Ok(offset)) ==> allocation == GuestAllocation::At(offset),
{
    match answer {
        None => GuestAllocation::Missing,
        Some(Err(_)) => GuestAllocation::Failed,
        Some(Ok(offset)) => GuestAllocation::At(*offset),
    }
}

/// Turns a capability's failure into the engine error that traps the guest.
fn raise<T>(outcome: Result<T, HostError>) -> (raised: Result<T, wasmtime::Error>)
    ensures
        outcome is Ok <==> raised is Ok,
        outcome matches Ok(value) ==> (raised matches Ok(same) && same == value),
{
    match outcome {
        Ok(value) => Ok(value),
        Err(error) => Err(engine_error(error.message())),
    }
}

/// `identify`, as the engine calls it: see [`identify`].
pub fn print_name(mut caller: Caller<'_, ClientExtensionState>) {
    identify(&mut caller);
}

/// `emit-text`, as the engine calls it: see [`emit_text`]. A failure traps
/// the guest.
pub fn wasm_print(mut caller: Caller<'_, ClientExtensionState>, s: u32) -> (done: Result<
    (),
    wasmtime::Error,
>)
    ensures
        done is Ok <==> spec_text_report(
            caller_context(caller).name,
            caller_view(caller),
            s as int,
        ) is Ok,
{
    raise(emit_text(&mut caller, s))
}

/// `emit-transform`, as the engine calls it: see [`emit_transform`]. A
/// failure traps the guest.
pub fn print_transform(mut caller: Caller<'_, ClientExtensionState>, ptr: u32) -> (done: Result<
    (),
    wasmtime::Error,
>)
    ensures
        done is Ok <==> spec_transform_report(
            caller_context(caller).name,
            caller_view(caller),
            ptr as int,
        ) is Ok,
{
    raise(emit_transform(&mut caller, ptr))
}

/// `produce-transform`, as the engine calls it: asks the caller's allocator
/// once for [`transform_request`] bytes, then hands its answer to
/// [`deliver_transform`]. A failure traps the guest; where the allocator
/// itself trapped, with the engine's own error.
///
/// The guest's code decides what its allocator answers. The call fails in
/// any case on a caller that exports no allocator or no memory.
pub fn wasm_get_transfrom(mut caller: Caller<'_, ClientExtensionState>) -> (offset: Result<
    u32,
    wasmtime::Error,
>)
    ensures
        !caller_has_allocator(caller) ==> offset is Err,
        !caller_has_memory(caller) ==> offset is Err,
{
    let answer = call_guest_alloc(&mut caller, allocator_export(), transform_request());
    let allocation = classify_allocation(&answer);
    match deliver_transform(&mut caller, allocation) {
        Ok(at) => Ok(at),
        Err(error) => match answer {
            Some(Err(trap)) => Err(trap),
            _ => Err(engine_error(error.message())),
        },
    }
}

/// A store with the instance that lives in it.
struct Linked {
    store: Store<ClientExtensionState>,
    instance: Instance,
}

/// A store of `engine` that holds `state`, made with `Store::try_new`.
#[verifier::external_body]
fn new_store(engine: &Engine, state: ClientExtensionState) -> (store: Result<
    Store<ClientExtensionState>,
    wasmtime::Error,
>)
    ensures
        store matches Ok(made) ==> store_context(made) == state@,
{
    Store::try_new(engine, state)
}

/// `print_name` as an import of `store`, made with `Func::try_wrap`, which
/// leaves the store's context alone.
#[verifier::external_body]
fn wrap_identify(store: &mut Store<ClientExtensionState>) -> (import: Result<
    Extern,
    wasmtime::Error,
>)
    ensures
        import matches Ok(made) ==> bound_capability(made) == Capability::Identify,
        store_context(*final(store)) == store_context(*old(store)),
{
    Func::try_wrap(store, print_name).map(Extern::from)
}

/// `wasm_print` as an import of `store`, made with `Func::try_wrap`, which
/// leaves the store's context alone.
#[verifier::external_body]
fn wrap_emit_text(store: &mut Store<ClientExtensionState>) -> (import: Result<
    Extern,
    wasmtime::Error,
>)
    ensures
        import matches Ok(made) ==> bound_capability(made) == Capability::EmitText,
        store_context(*final(store)) == store_context(*old(store)),
{
    Func::try_wrap(store, wasm_print).map(Extern::from)
}

/// `wasm_get_transfrom` as an import of `store`, made with `Func::try_wrap`,
/// which leaves the store's context alone.
#[verifier::external_body]
fn wrap_produce_transform(store: &mut Store<ClientExtensionState>) -> (import: Result<
    Extern,
    wasmtime::Error,
>)
    ensures
        import matches Ok(made) ==> bound_capability(made) == Capability::ProduceTransform,
        store_context(*final(store)) == store_context(*old(store)),
{
    Func::try_wrap(store, wasm_get_transfrom).map(Extern::from)
}

/// `print_transform` as an import of `store`, made with `Func::try_wrap`,
/// which leaves the store's context alone.
#[verifier::external_body]
fn wrap_emit_transform(store: &mut Store<ClientExtensionState>) -> (import: Result<
    Extern,
    wasmtime::Error,
>)
    ensures
        import matches Ok(made) ==> bound_capability(made) == Capability::EmitTransform,
        store_context(*final(store)) == store_context(*old(store)),
{
    Func::try_wrap(store, print_transform).map(Extern::from)
}

/// Whether `imports` holds one import for each slot, each running the
/// capability that belongs into its slot.
pub open spec fn in_import_order(imports: Seq<Extern>) -> bool {
    &&& imports.len() == IMPORT_COUNT
    &&& forall|slot: int|
        0 <= slot < imports.len() ==> Some(bound_capability(#[trigger] imports[slot]))
            == Capability::spec_at(slot)
}

/// The host's capabilities as imports of `store`, in the order of their
/// slots.
fn bind_capabilities(store: &mut Store<ClientExtensionState>) -> (bound: Result<
    Vec<Extern>,
    wasmtime::Error,
>)
    ensures
        bound matches Ok(imports) ==> in_import_order(imports@),
        store_context(*final(store)) == store_context(*old(store)),
{
    let mut imports: Vec<Extern> = Vec::new();
    let mut slot: usize = 0;
    while slot < IMPORT_COUNT
        invariant
            slot <= IMPORT_COUNT,
            imports@.len() == slot,
            forall|earlier: int|
                0 <= earlier < imports@.len() ==> Some(
                    bound_capability(#[trigger] imports@[earlier]),
                ) == Capability::spec_at(earlier),
            store_context(*store) == store_context(*old(store)),
        decreases IMPORT_COUNT - slot,
    {
        let wrapped = match Capability::at(slot).unwrap() {
            Capability::Identify => wrap_identify(store),
            Capability::EmitText => wrap_emit_text(store),
            Capability::ProduceTransform => wrap_produce_transform(store),
            Capability::EmitTransform => wrap_emit_transform(store),
        };
        match wrapped {
            Ok(import) => {
                imports.push(import);
            },
            Err(error) => {
                return Err(error);
            },
        }
        slot = slot + 1;
    }
    Ok(imports)
}

/// Instantiates `module` in `store` with `imports`, by `Instance::new`,
/// which takes them in the order of the module's imports.
///
/// The engine does not touch the store's context. A module's start function
/// runs meanwhile and may call the capabilities, which report and record
/// there but keep the context's name: so the name is what it was, and
/// nothing else is claimed of the context.
#[verifier::external_body]
fn instantiate(
    store: Store<ClientExtensionState>,
    module: &Module,
    imports: Vec<Extern>,
) -> (linked: Result<Linked, wasmtime::Error>)
    requires
        in_import_order(imports@),
    ensures
        linked matches Ok(made) ==> store_context(made.store).name == store_context(store).name,
{
    let mut store = store;
    let instance = Instance::new(&mut store, module, &imports)?;
    Ok(Linked { store, instance })
}

/// The instance's export `name` as a function without arguments or results,
/// looked up with `Instance::get_typed_func`, which runs no guest code and
/// leaves the store's context alone.
#[verifier::external_body]
fn entry_point(linked: &mut Linked, name: &str) -> (entry: Result<
    TypedFunc<(), ()>,
    wasmtime::Error,
>)
    requires
        name@ == spec_entry_point_export(),
    ensures
        store_context(final(linked).store) == store_context(old(linked).store),
{
    linked.instance.get_typed_func::<(), ()>(&mut linked.store, name)
}

/// Whether the instance exports a linear memory under `name`, looked up
/// with `Instance::get_memory`, which runs no guest code and leaves the
/// store's context alone.
#[verifier::external_body]
fn exports_memory(linked: &mut Linked, name: &str) -> (exported: bool)
    requires
        name@ == spec_memory_export(),
    ensures
        store_context(final(linked).store) == store_context(old(linked).store),
{
    linked.instance.get_memory(&mut linked.store, name).is_some()
}

/// The context that `store` holds, borrowed with `Store::data_mut`, which
/// only hands out a field and so cannot panic. What is borrowed is what
/// `store_context` stands for, and what the borrower leaves there is what
/// the store holds afterwards.
#[verifier::external_body]
fn store_state<'a>(store: &'a mut Store<ClientExtensionState>) -> (state:
    &'a mut ClientExtensionState)
    ensures
        state@ == store_context(*old(store)),
        final(state)@ == store_context(*final(store)),
    no_unwind
{
    store.data_mut()
}

/// Calls the instance's entry point with `TypedFunc::call`.
///
/// The call leaves the phase and the recorded outcome of the run to the
/// caller. What it leaves in the store is whatever the guest and the
/// capabilities did: they report and record in the context and keep its
/// name.
#[verifier::external_body]
fn call_entry_point(extension: &mut ClientWasmExtension) -> (called: Result<(), wasmtime::Error>)
    ensures
        final(extension).phase == old(extension).phase,
        final(extension).fault == old(extension).fault,
        final(extension).detail == old(extension).detail,
        store_context(final(extension).wasm_store).name == store_context(
            old(extension).wasm_store,
        ).name,
{
    extension.wasm_main.call(&mut extension.wasm_store, ())
}

/// One extension, instantiated: the module's instance, the store that holds
/// its context and memory, and its entry point.
pub struct ClientWasmExtension {
    wasm_main: TypedFunc<(), ()>,
    wasm_instance: Instance,
    wasm_store: Store<ClientExtensionState>,
    phase: Phase,
    fault: Option<HostError>,
    detail: String,
}

impl ClientWasmExtension {
    /// An instance is waiting to run, or has run and holds the outcome.
    #[verifier::type_invariant]
    spec fn waiting_or_done(&self) -> bool {
        &&& self.phase == Phase::Instantiated || self.phase == Phase::Completed || self.phase
            == Phase::Failed
        &&& self.phase == Phase::Failed ==> self.fault is Some
        &&& self.phase != Phase::Failed ==> self.detail@ == Seq::<char>::empty()
    }

    /// Where the instance stands.
    pub closed spec fn spec_phase(&self) -> Phase {
        self.phase
    }

    /// How the run ended, `None` as long as the instance has not run.
    pub closed spec fn spec_outcome(&self) -> Option<Result<(), HostError>> {
        match self.phase {
            Phase::Completed => Some(Ok(())),
            Phase::Failed => match self.fault {
                Some(error) => Some(Err(error)),
                None => None,
            },
            _ => None,
        }
    }

    /// What the engine said of the failed run, empty where it said nothing.
    pub closed spec fn spec_detail(&self) -> Seq<char> {
        self.detail@
    }

    /// The instance's context: its name, what its capabilities have
    /// reported and not yet handed out, and the failure that a capability
    /// recorded.
    pub closed spec fn spec_context(&self) -> ContextView {
        store_context(self.wasm_store)
    }

    /// Where the instance stands: waiting to run, completed or failed.
    pub fn phase(&self) -> (phase: Phase)
        ensures
            phase == self.spec_phase(),
            phase == Phase::Instantiated || phase == Phase::Completed || phase == Phase::Failed,
    {
        proof {
            use_type_invariant(self);
        }
        self.phase
    }

    /// How the run ended, `None` as long as the instance has not run.
    pub fn outcome(&self) -> (outcome: Option<Result<(), HostError>>)
        ensures
            outcome == self.spec_outcome(),
            outcome is None <==> self.spec_phase() == Phase::Instantiated,
            outcome == Some(Ok::<(), HostError>(())) <==> self.spec_phase() == Phase::Completed,
            (outcome matches Some(Err(_))) <==> self.spec_phase() == Phase::Failed,
    {
        proof {
            use_type_invariant(self);
        }
        match self.phase {
            Phase::Completed => Some(Ok(())),
            Phase::Failed => match self.fault {
                Some(error) => Some(Err(error)),
                None => None,
            },
            _ => None,
        }
    }

    /// What the engine said of the run where the entry point did not
    /// return: the trap, with its causes and its backtrace. Empty as long as
    /// the instance has not run, and where the run ended well.
    pub fn detail(&self) -> (text: &str)
        ensures
            text@ == self.spec_detail(),
            self.spec_phase() != Phase::Failed ==> text@ == Seq::<char>::empty(),
    {
        proof {
            use_type_invariant(self);
        }
        self.detail.as_str()
    }

    /// Hands out what the capabilities have reported since the last call,
    /// oldest first. Every report carries the name of the instance.
    pub fn take_reports(&mut self) -> (reports: Vec<Report>)
        ensures
            reports_view(reports@) == old(self).spec_context().reports,
            old(self).spec_context().spec_tagged(),
            final(self).spec_context() == (ContextView {
                name: old(self).spec_context().name,
                reports: Seq::empty(),
                failure: old(self).spec_context().failure,
            }),
            final(self).spec_phase() == old(self).spec_phase(),
            final(self).spec_outcome() == old(self).spec_outcome(),
            final(self).spec_detail() == old(self).spec_detail(),
    {
        proof {
            use_type_invariant(&*self);
        }
        store_state(&mut self.wasm_store).take_reports()
    }

    /// Runs the extension: invokes its entry point and waits for it.
    ///
    /// An instance runs once. On an instance that is waiting, the entry
    /// point is called; the run completes if the call returns and no
    /// capability recorded a failure, and fails otherwise, with the recorded
    /// failure or else with `GuestTrap`. On an instance that has run,
    /// nothing is called and the outcome of that run is returned again.
    ///
    /// So a run that ends well has no failure on record, and a run during
    /// which a capability failed ends with that failure. The instance keeps
    /// its name throughout.
    pub fn main(&mut self) -> (result: Result<(), HostError>)
        ensures
            final(self).spec_outcome() == Some(result),
            final(self).spec_context().name == old(self).spec_context().name,
            old(self).spec_outcome() is None ==> {
                &&& Some(final(self).spec_phase()) == spec_phase_after_run(result)
                &&& result == spec_run_outcome(result is Ok, final(self).spec_context().failure)
            },
            old(self).spec_outcome() is Some ==> {
                &&& final(self).spec_outcome() == old(self).spec_outcome()
                &&& final(self).spec_phase() == old(self).spec_phase()
                &&& final(self).spec_context() == old(self).spec_context()
                &&& final(self).spec_detail() == old(self).spec_detail()
            },
            result is Ok <==> final(self).spec_phase() == Phase::Completed,
            result is Err <==> final(self).spec_phase() == Phase::Failed,
    {
        proof {
            use_type_invariant(&*self);
        }
        match self.outcome() {
            Some(outcome) => outcome,
            None => {
                let running = self.phase.next(Event::Started).unwrap();
                let called = call_entry_point(self);
                let recorded = store_state(&mut self.wasm_store).failure();
                let outcome = run_outcome(called.is_ok(), recorded);
                if let Err(error) = outcome {
                    self.fault = Some(error);
                }
                self.phase = running.next(closing_event(&outcome)).unwrap();
                match called {
                    Ok(_) => {},
                    Err(trap) => {
                        self.detail = error_text(&trap);
                    },
                }
                outcome
            },
        }
    }
}

/// Looks at the log of the context that `store` holds without changing it,
/// to tell of the store what a context keeps to: every report in its log
/// carries its name.
fn check_log(store: &mut Store<ClientExtensionState>)
    ensures
        store_context(*final(store)) == store_context(*old(store)),
        store_context(*old(store)).spec_tagged(),
{
    store_state(store).reports();
}

/// A failure of the engine's, with the engine's account of it.
fn engine_failure(error: HostError, engine: &wasmtime::Error) -> (failure: Failure)
    ensures
        failure.error == error,
{
    Failure { error, detail: error_text(engine) }
}

/// Builds an instance of `module` for an extension called `name`: binds the
/// capabilities as the module's imports, in the order of their slots, and
/// resolves its entry point and its memory.
///
/// Fails with `InstantiationFailed` where the engine cannot instantiate the
/// module with these imports, with `MissingEntryPoint` where the instance
/// exports no function `main` without arguments and results, and with
/// `MissingMemory` where it exports no memory `memory`: resolution errors
/// all three. A module that fails leaves nothing behind that another module
/// could meet.
///
/// The new instance waits to run: its entry point has not been called. Its
/// context holds `name`. The log is empty unless the module has a start
/// function that calls a capability: the engine runs a start function while
/// it instantiates, so such reports are there already, under `name` like all
/// the others.
pub fn create_extension(engine: &Engine, module: Module, name: &str) -> (created: Result<
    ClientWasmExtension,
    Failure,
>)
    ensures
        created matches Ok(extension) ==> {
            &&& extension.spec_phase() == Phase::Instantiated
            &&& extension.spec_outcome() is None
            &&& extension.spec_context().name == name@
            &&& extension.spec_context().spec_tagged()
            &&& extension.spec_detail() == Seq::<char>::empty()
        },
        created matches Err(failure) ==> failure.error.spec_kind() == ErrorKind::Resolution,
{
    let mut store = match new_store(engine, ClientExtensionState::new(name)) {
        Ok(store) => store,
        Err(engine) => {
            return Err(engine_failure(HostError::InstantiationFailed, &engine));
        },
    };
    let imports = match bind_capabilities(&mut store) {
        Ok(imports) => imports,
        Err(engine) => {
            return Err(engine_failure(HostError::InstantiationFailed, &engine));
        },
    };
    let mut linked = match instantiate(store, &module, imports) {
        Ok(linked) => linked,
        Err(engine) => {
            return Err(engine_failure(HostError::InstantiationFailed, &engine));
        },
    };
    let entry = entry_point(&mut linked, entry_point_export());
    let has_memory = exports_memory(&mut linked, memory_export());
    check_log(&mut linked.store);
    match entry {
        Ok(wasm_main) => match check_exports(true, has_memory) {
            Ok(()) => Ok(
                ClientWasmExtension {
                    wasm_main,
                    wasm_instance: linked.instance,
                    wasm_store: linked.store,
                    phase: Phase::Loaded.next(Event::Resolved).unwrap(),
                    fault: None,
                    detail: String::new(),
                },
            ),
            Err(error) => Err(Failure { error, detail: String::new() }),
        },
        Err(engine) => match check_exports(false, has_memory) {
            Ok(()) => Err(engine_failure(HostError::MissingEntryPoint, &engine)),
            Err(error) => Err(engine_failure(error, &engine)),
        },
    }
}

} // verus!
