//! The sandbox engine.
//!
//! Components are compiled, linked and run by `wasmtime`. This file declares
//! the `wasmtime` types that the component host holds and gives each
//! `wasmtime` function that it calls a contract. None of these contracts is
//! proved: each doc comment names the function called and says what is
//! assumed of it. The crate is built without its `async` feature, so no store
//! is asynchronous and the synchronous calls below are the ones to use.
use vstd::prelude::*;
use crate::capabilities::{dispatch_send, log, CapabilityKind, HostFunction};
use crate::store::HostState;

verus! {

#[verifier::external_type_specification]
#[verifier::external_body]
pub struct ExEngine(wasmtime::Engine);

#[verifier::external_type_specification]
#[verifier::external_body]
pub struct ExComponent(wasmtime::component::Component);

#[verifier::external_type_specification]
#[verifier::external_body]
pub struct ExComponentExportIndex(wasmtime::component::ComponentExportIndex);

#[verifier::external_type_specification]
#[verifier::external_body]
#[verifier::reject_recursive_types(T)]
pub struct ExLinker<T: 'static>(wasmtime::component::Linker<T>);

#[verifier::external_type_specification]
#[verifier::external_body]
#[verifier::reject_recursive_types(T)]
pub struct ExStore<T: 'static>(wasmtime::Store<T>);

#[verifier::external_type_specification]
#[verifier::external_body]
pub struct ExInstance(wasmtime::component::Instance);

#[verifier::external_type_specification]
#[verifier::external_body]
pub struct ExFunc(wasmtime::component::Func);

#[verifier::external_type_specification]
#[verifier::external_body]
#[verifier::reject_recursive_types(Params)]
#[verifier::reject_recursive_types(Return)]
pub struct ExTypedFunc<Params, Return>(wasmtime::component::TypedFunc<Params, Return>);

#[verifier::external_type_specification]
#[verifier::external_body]
pub struct ExSandboxError(wasmtime::Error);

/// The index under which a component exports `name`: at its root where
/// `parent` is `None`, else inside the exported instance `parent`. `None`
/// where there is no such export.
pub uninterp spec fn component_export(
    component: wasmtime::component::Component,
    parent: Option<wasmtime::component::ComponentExportIndex>,
    name: Seq<char>,
) -> Option<wasmtime::component::ComponentExportIndex>;

/// The names defined at the root of a linker.
pub uninterp spec fn linker_names(linker: wasmtime::component::Linker<HostState>) -> Set<
    Seq<char>,
>;

/// The host functions of this library that a linker defines, each under the
/// name of its instance and its own name.
pub uninterp spec fn linker_functions(linker: wasmtime::component::Linker<HostState>) -> Map<
    (Seq<char>, Seq<char>),
    HostFunction,
>;

/// Whether a linker lets a definition replace an earlier one of the same
/// name. A new linker does not.
pub uninterp spec fn linker_allows_shadowing(
    linker: wasmtime::component::Linker<HostState>,
) -> bool;

/// The identity of a store. An instance, and every function taken from it,
/// can only be used with the store it was made in.
pub uninterp spec fn store_ident(store: wasmtime::Store<HostState>) -> int;

/// The identity of the store that an instance was made in.
pub uninterp spec fn instance_owner(instance: wasmtime::component::Instance) -> int;

/// The identity of the store that a function belongs to.
pub uninterp spec fn func_owner(func: wasmtime::component::Func) -> int;

/// The identity of the store that a typed function without parameters
/// belongs to.
pub uninterp spec fn nullary_owner(func: wasmtime::component::TypedFunc<(), (Vec<u8>,)>) -> int;

/// The identity of the store that a typed function of two byte strings
/// belongs to.
pub uninterp spec fn binary_owner(
    func: wasmtime::component::TypedFunc<(Vec<u8>, Vec<u8>), (Vec<u8>,)>,
) -> int;

/// `wasmtime::Engine::default`.
#[verifier::external_body]
pub(crate) fn engine_default() -> wasmtime::Engine {
    wasmtime::Engine::default()
}

/// `wasmtime::component::Component::new`: compiles a component from its
/// binary or text form. Nothing is assumed of the outcome.
#[verifier::external_body]
pub(crate) fn component_new(engine: &wasmtime::Engine, bytes: &[u8]) -> Result<
    wasmtime::component::Component,
    wasmtime::Error,
> {
    wasmtime::component::Component::new(engine, bytes)
}

/// `wasmtime::component::Component::get_export_index`. Assumed: the outcome
/// is a function of the component, the parent and the name, named by
/// [`component_export`].
#[verifier::external_body]
pub(crate) fn component_get_export_index(
    component: &wasmtime::component::Component,
    parent: Option<wasmtime::component::ComponentExportIndex>,
    name: &str,
) -> (r: Option<wasmtime::component::ComponentExportIndex>)
    ensures
        r == component_export(*component, parent, name@),
{
    component.get_export_index(parent.as_ref(), name)
}

/// `wasmtime::component::Linker::new`. Assumed, as documented: no item is
/// defined in the new linker, and it does not allow shadowing.
#[verifier::external_body]
pub(crate) fn linker_new(engine: &wasmtime::Engine) -> (linker: wasmtime::component::Linker<
    HostState,
>)
    ensures
        linker_names(linker) == Set::<Seq<char>>::empty(),
        !linker_allows_shadowing(linker),
{
    wasmtime::component::Linker::new(engine)
}

/// `Linker::instance`, then `LinkerInstance::func_wrap` once for the log
/// function and once for the send function. The two host functions do nothing
/// but call [`log`] and [`dispatch_send`] on the data of the running store.
/// Assumed, as the source of the linker's name map shows: a definition fails
/// exactly where its name is already defined and the linker does not allow
/// shadowing. So in a linker that allows none the three succeed exactly where
/// the instance name is new and the two function names differ, and in one
/// that does they always succeed. The instance name is then defined at the
/// root, and in the instance the first function name stands for [`log`] and
/// the second for [`dispatch_send`] of the given interface. What other
/// instances define stays. Whether the linker allows shadowing does not
/// change.
#[verifier::external_body]
pub(crate) fn define_host_functions(
    linker: &mut wasmtime::component::Linker<HostState>,
    kind: CapabilityKind,
    namespace: &str,
    log_name: &str,
    send_name: &str,
) -> (r: Result<(), wasmtime::Error>)
    ensures
        r is Ok <==> (linker_allows_shadowing(*old(linker)) || (!linker_names(
            *old(linker),
        ).contains(namespace@) && log_name@ != send_name@)),
        r is Ok ==> linker_names(*final(linker)) == linker_names(*old(linker)).insert(
            namespace@,
        ),
        r is Ok && log_name@ != send_name@ ==> linker_functions(*final(linker)).contains_pair(
            (namespace@, log_name@),
            HostFunction::Log,
        ) && linker_functions(*final(linker)).contains_pair(
            (namespace@, send_name@),
            HostFunction::Send(kind),
        ),
        r is Ok ==> forall|instance: Seq<char>, name: Seq<char>, function: HostFunction|
            instance != namespace@ && #[trigger] linker_functions(*old(linker)).contains_pair(
                (instance, name),
                function,
            ) ==> linker_functions(*final(linker)).contains_pair((instance, name), function),
        linker_allows_shadowing(*final(linker)) == linker_allows_shadowing(*old(linker)),
{
    let mut runtime = linker.instance(namespace)?;
    runtime.func_wrap(
        log_name,
        |mut ctx: wasmtime::StoreContextMut<'_, HostState>, (msg,): (String,)| {
            log(ctx.data_mut(), msg);
            Ok(())
        },
    )?;
    runtime.func_wrap(
        send_name,
        move |mut ctx: wasmtime::StoreContextMut<'_, HostState>, (address, msg): (String, Vec<u8>)|
            dispatch_send(kind, ctx.data_mut(), address, msg).map_err(
                |e| wasmtime::Error::msg(e.describe()),
            ),
    )
}

/// `wasmtime::Store::new`.
#[verifier::external_body]
pub(crate) fn store_new(engine: &wasmtime::Engine, data: HostState) -> wasmtime::Store<
    HostState,
> {
    wasmtime::Store::new(engine, data)
}

/// `wasmtime::Store::into_data`: the data of the store, as the host functions
/// left it.
#[verifier::external_body]
pub(crate) fn store_into_data(store: wasmtime::Store<HostState>) -> HostState {
    store.into_data()
}

/// `wasmtime::component::Linker::instantiate`. Assumed: the store stays the
/// store it was, and an instance that comes back was made in it. Nothing is
/// assumed of whether one comes back.
#[verifier::external_body]
pub(crate) fn linker_instantiate(
    linker: &wasmtime::component::Linker<HostState>,
    store: &mut wasmtime::Store<HostState>,
    component: &wasmtime::component::Component,
) -> (r: Result<wasmtime::component::Instance, wasmtime::Error>)
    ensures
        store_ident(*final(store)) == store_ident(*old(store)),
        r matches Ok(instance) ==> instance_owner(instance) == store_ident(*old(store)),
{
    linker.instantiate(store, component)
}

/// `wasmtime::component::Instance::get_func`, which panics unless the store
/// owns the instance. Assumed: the store stays the store it was, and a
/// function that comes back belongs to it.
#[verifier::external_body]
pub(crate) fn instance_get_func(
    instance: &wasmtime::component::Instance,
    store: &mut wasmtime::Store<HostState>,
    index: &wasmtime::component::ComponentExportIndex,
) -> (r: Option<wasmtime::component::Func>)
    requires
        instance_owner(*instance) == store_ident(*old(store)),
    ensures
        store_ident(*final(store)) == store_ident(*old(store)),
        r matches Some(func) ==> func_owner(func) == store_ident(*old(store)),
{
    instance.get_func(store, index)
}

/// `wasmtime::component::Func::typed`, for an export that takes nothing and
/// returns a byte string. It panics unless the store owns the function.
/// Assumed: a typed function that comes back belongs to the same store.
#[verifier::external_body]
pub(crate) fn func_typed_nullary(
    func: &wasmtime::component::Func,
    store: &wasmtime::Store<HostState>,
) -> (r: Result<wasmtime::component::TypedFunc<(), (Vec<u8>,)>, wasmtime::Error>)
    requires
        func_owner(*func) == store_ident(*store),
    ensures
        r matches Ok(typed) ==> nullary_owner(typed) == store_ident(*store),
{
    func.typed::<(), (Vec<u8>,)>(store)
}

/// `wasmtime::component::Func::typed`, for an export that takes two byte
/// strings and returns one. It panics unless the store owns the function.
/// Assumed: a typed function that comes back belongs to the same store.
#[verifier::external_body]
pub(crate) fn func_typed_binary(
    func: &wasmtime::component::Func,
    store: &wasmtime::Store<HostState>,
) -> (r: Result<
    wasmtime::component::TypedFunc<(Vec<u8>, Vec<u8>), (Vec<u8>,)>,
    wasmtime::Error,
>)
    requires
        func_owner(*func) == store_ident(*store),
    ensures
        r matches Ok(typed) ==> binary_owner(typed) == store_ident(*store),
{
    func.typed::<(Vec<u8>, Vec<u8>), (Vec<u8>,)>(store)
}

/// `wasmtime::component::TypedFunc::call`, without arguments. It panics
/// unless the store owns the function. Assumed: the store stays the store it
/// was. Nothing is assumed of what the sandbox returns.
#[verifier::external_body]
pub(crate) fn typed_call_nullary(
    typed: &wasmtime::component::TypedFunc<(), (Vec<u8>,)>,
    store: &mut wasmtime::Store<HostState>,
) -> (r: Result<Vec<u8>, wasmtime::Error>)
    requires
        nullary_owner(*typed) == store_ident(*old(store)),
    ensures
        store_ident(*final(store)) == store_ident(*old(store)),
{
    typed.call(store, ()).map(|(bytes,)| bytes)
}

/// `wasmtime::component::TypedFunc::call`, with two byte strings. It panics
/// unless the store owns the function. Assumed: the store stays the store it
/// was. Nothing is assumed of what the sandbox returns.
#[verifier::external_body]
pub(crate) fn typed_call_binary(
    typed: &wasmtime::component::TypedFunc<(Vec<u8>, Vec<u8>), (Vec<u8>,)>,
    store: &mut wasmtime::Store<HostState>,
    first: Vec<u8>,
    second: Vec<u8>,
) -> (r: Result<Vec<u8>, wasmtime::Error>)
    requires
        binary_owner(*typed) == store_ident(*old(store)),
    ensures
        store_ident(*final(store)) == store_ident(*old(store)),
{
    typed.call(store, (first, second)).map(|(bytes,)| bytes)
}

} // verus!
