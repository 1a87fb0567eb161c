//! Capabilities: what a component of a given interface may call, and what it
//! must export.
//!
//! There are two interfaces. Every actor has the base interface; an actor
//! that answers HTTP requests has the HTTP interface as well. For each of
//! them a capability registers the host functions of its namespace in a
//! linker and resolves the exports that the component host will call.
use vstd::prelude::*;
use vstd::string::StringExecFns;
use crate::error::ActorError;
use crate::json::{json_model, json_parse, parse_json};
use crate::sandbox::{
    component_export, component_get_export_index, define_host_functions,
    linker_allows_shadowing, linker_functions, linker_names,
};
use crate::store::{EffectModel, HostEffect, HostState};

verus! {

/// The two interfaces.
#[derive(Clone, Copy, Debug, PartialEq, Eq, Structural)]
pub enum CapabilityKind {
    Base,
    Http,
}

/// The interface name of the base capability.
pub const BASE_INTERFACE: &'static str = "ntwk:simple-actor/actor";

/// The interface name of the HTTP capability.
pub const HTTP_INTERFACE: &'static str = "ntwk:simple-http-actor/http-actor";

/// The namespace of the host functions of the base capability.
pub const BASE_NAMESPACE: &'static str = "ntwk:simple-actor/runtime";

/// The namespace of the host functions of the HTTP capability.
pub const HTTP_NAMESPACE: &'static str = "ntwk:simple-http-actor/http-runtime";

/// What every log line starts with.
pub const LOG_PREFIX: &'static str = "[ACTOR] ";

/// The name under which a namespace offers the host function that logs.
pub const LOG_FUNCTION: &'static str = "log";

/// The name under which a namespace offers the host function that sends.
pub const SEND_FUNCTION: &'static str = "send";

/// The host functions that a sandbox can be given.
pub enum HostFunction {
    /// [`log`].
    Log,
    /// [`dispatch_send`] for the interface.
    Send(CapabilityKind),
}

impl CapabilityKind {
    /// The name under which a component exports the interface, and by which a
    /// manifest declares it.
    pub open spec fn interface(self) -> Seq<char> {
        match self {
            CapabilityKind::Base => BASE_INTERFACE@,
            CapabilityKind::Http => HTTP_INTERFACE@,
        }
    }

    /// The name of the instance that holds the interface's host functions.
    pub open spec fn namespace(self) -> Seq<char> {
        match self {
            CapabilityKind::Base => BASE_NAMESPACE@,
            CapabilityKind::Http => HTTP_NAMESPACE@,
        }
    }

    /// The exports that a component of the interface must have, in the order
    /// in which they are resolved.
    pub open spec fn required_exports(self) -> Seq<Seq<char>> {
        match self {
            CapabilityKind::Base => seq![
                "init"@,
                "handle"@,
                "state-contract"@,
                "message-contract"@,
            ],
            CapabilityKind::Http => seq![
                "init"@,
                "handle"@,
                "state-contract"@,
                "message-contract"@,
                "http-contract"@,
                "handle-http"@,
            ],
        }
    }

    /// See [`CapabilityKind::interface`].
    pub fn interface_name(self) -> (name: &'static str)
        ensures
            name@ == self.interface(),
    {
        match self {
            CapabilityKind::Base => BASE_INTERFACE,
            CapabilityKind::Http => HTTP_INTERFACE,
        }
    }

    /// See [`CapabilityKind::namespace`].
    pub fn namespace_name(self) -> (name: &'static str)
        ensures
            name@ == self.namespace(),
    {
        match self {
            CapabilityKind::Base => BASE_NAMESPACE,
            CapabilityKind::Http => HTTP_NAMESPACE,
        }
    }

    /// See [`CapabilityKind::required_exports`].
    pub fn required_export_names(self) -> (names: Vec<&'static str>)
        ensures
            names@.len() == self.required_exports().len(),
            forall|i: int|
                0 <= i < names@.len() ==> (#[trigger] names@[i])@ == self.required_exports()[i],
    {
        match self {
            CapabilityKind::Base => vec!["init", "handle", "state-contract", "message-contract"],
            CapabilityKind::Http => vec![
                "init",
                "handle",
                "state-contract",
                "message-contract",
                "http-contract",
                "handle-http",
            ],
        }
    }
}

/// The HTTP interface requires what the base interface requires, in the same
/// order, and two exports more: `http-contract` and `handle-http`.
pub proof fn lemma_http_extends_base()
    ensures
        CapabilityKind::Http.required_exports() == CapabilityKind::Base.required_exports()
            + seq!["http-contract"@, "handle-http"@],
{
}

/// The exports of one interface, as resolved against a component: each
/// required name with the index under which the component exports it.
pub open spec fn resolved(
    kind: CapabilityKind,
    component: wasmtime::component::Component,
    exports: Seq<(String, wasmtime::component::ComponentExportIndex)>,
) -> bool {
    let interface = component_export(component, None, kind.interface());
    &&& interface is Some
    &&& exports.len() == kind.required_exports().len()
    &&& forall|i: int|
        0 <= i < exports.len() ==> {
            &&& (#[trigger] exports[i]).0@ == kind.required_exports()[i]
            &&& component_export(component, interface, kind.required_exports()[i]) == Some(
                exports[i].1,
            )
        }
}

/// Whether a component exports the interface and, inside it, every export
/// that the interface requires.
pub open spec fn exports_present(
    kind: CapabilityKind,
    component: wasmtime::component::Component,
) -> bool {
    let interface = component_export(component, None, kind.interface());
    &&& interface is Some
    &&& forall|i: int|
        0 <= i < kind.required_exports().len() ==> (#[trigger] component_export(
            component,
            interface,
            kind.required_exports()[i],
        )) is Some
}

/// Whether the host functions of an interface can be set up in a linker: its
/// namespace must not be defined there yet, unless the linker lets a
/// definition replace an earlier one.
pub open spec fn can_set_up(
    kind: CapabilityKind,
    linker: wasmtime::component::Linker<HostState>,
) -> bool {
    linker_allows_shadowing(linker) || !linker_names(linker).contains(kind.namespace())
}

/// Whether a linker offers the host functions of an interface: in the
/// interface's namespace, logging under the name `log` and the interface's
/// sending under the name `send`.
pub open spec fn offers_host_functions(
    kind: CapabilityKind,
    linker: wasmtime::component::Linker<HostState>,
) -> bool {
    &&& linker_functions(linker).contains_pair(
        (kind.namespace(), LOG_FUNCTION@),
        HostFunction::Log,
    )
    &&& linker_functions(linker).contains_pair(
        (kind.namespace(), SEND_FUNCTION@),
        HostFunction::Send(kind),
    )
}

/// Registers the host functions `log` and `send` of an interface in its
/// namespace. This fails with `SandboxLoadError` exactly where the namespace
/// cannot be defined in the linker.
pub fn setup_host_functions_of(
    kind: CapabilityKind,
    linker: &mut wasmtime::component::Linker<HostState>,
) -> (r: Result<(), ActorError>)
    ensures
        r is Ok <==> can_set_up(kind, *old(linker)),
        r is Ok ==> linker_names(*final(linker)) == linker_names(*old(linker)).insert(
            kind.namespace(),
        ),
        r is Ok ==> offers_host_functions(kind, *final(linker)),
        r is Ok ==> forall|other: CapabilityKind|
            other != kind && #[trigger] offers_host_functions(other, *old(linker))
                ==> offers_host_functions(other, *final(linker)),
        linker_allows_shadowing(*final(linker)) == linker_allows_shadowing(*old(linker)),
        r matches Err(e) ==> e == ActorError::SandboxLoadError,
{
    proof {
        reveal_strlit("log");
        reveal_strlit("send");
        assert(LOG_FUNCTION@.len() != SEND_FUNCTION@.len());
        reveal_strlit("ntwk:simple-actor/runtime");
        reveal_strlit("ntwk:simple-http-actor/http-runtime");
        assert(CapabilityKind::Base.namespace().len() != CapabilityKind::Http.namespace().len());
    }
    match define_host_functions(
        linker,
        kind,
        kind.namespace_name(),
        LOG_FUNCTION,
        SEND_FUNCTION,
    ) {
        Ok(()) => Ok(()),
        Err(_) => Err(ActorError::SandboxLoadError),
    }
}

/// Resolves the exports of an interface against a component: the interface
/// itself at the root, then each required export inside it, in order. Fails
/// with `ExportNotFound` exactly where one of them is absent.
pub fn get_exports_of(kind: CapabilityKind, component: &wasmtime::component::Component) -> (r:
    Result<Vec<(String, wasmtime::component::ComponentExportIndex)>, ActorError>)
    ensures
        r is Ok <==> exports_present(kind, *component),
        r matches Ok(exports) ==> resolved(kind, *component, exports@),
        r matches Err(e) ==> e == ActorError::ExportNotFound,
{
    let interface = component_get_export_index(component, None, kind.interface_name());
    if interface.is_none() {
        return Err(ActorError::ExportNotFound);
    }
    let names = kind.required_export_names();
    let mut exports: Vec<(String, wasmtime::component::ComponentExportIndex)> = Vec::new();
    let mut i: usize = 0;
    while i < names.len()
        invariant
            i <= names@.len(),
            interface == component_export(*component, None, kind.interface()),
            interface is Some,
            names@.len() == kind.required_exports().len(),
            forall|k: int|
                0 <= k < names@.len() ==> (#[trigger] names@[k])@ == kind.required_exports()[k],
            exports@.len() == i,
            forall|k: int|
                0 <= k < i ==> {
                    &&& (#[trigger] exports@[k]).0@ == kind.required_exports()[k]
                    &&& component_export(*component, interface, kind.required_exports()[k]) == Some(
                        exports@[k].1,
                    )
                },
        decreases names@.len() - i,
    {
        let name: &'static str = names[i];
        match component_get_export_index(component, interface, name) {
            Some(index) => {
                exports.push((String::from_str(name), index));
            },
            None => {
                return Err(ActorError::ExportNotFound);
            },
        }
        i = i + 1;
    }
    assert forall|k: int| 0 <= k < kind.required_exports().len() implies (#[trigger] component_export(
        *component,
        interface,
        kind.required_exports()[k],
    )) is Some by {
        assert(exports@[k].0@ == kind.required_exports()[k]);
    }
    Ok(exports)
}

/// A set of capabilities that a component can implement.
pub trait ActorCapability {
    /// Which of the interfaces this is.
    spec fn kind(&self) -> CapabilityKind;

    /// Sets up the host functions of the interface in the linker.
    fn setup_host_functions(&self, linker: &mut wasmtime::component::Linker<HostState>) -> (r:
        Result<(), ActorError>)
        ensures
            r is Ok <==> can_set_up(self.kind(), *old(linker)),
            r is Ok ==> linker_names(*final(linker)) == linker_names(*old(linker)).insert(
                self.kind().namespace(),
            ),
            r is Ok ==> offers_host_functions(self.kind(), *final(linker)),
            r is Ok ==> forall|other: CapabilityKind|
                other != self.kind() && #[trigger] offers_host_functions(other, *old(linker))
                    ==> offers_host_functions(other, *final(linker)),
            linker_allows_shadowing(*final(linker)) == linker_allows_shadowing(*old(linker)),
            r matches Err(e) ==> e == ActorError::SandboxLoadError,
    ;

    /// Gets the indices of the required exports from the component.
    fn get_exports(&self, component: &wasmtime::component::Component) -> (r: Result<
        Vec<(String, wasmtime::component::ComponentExportIndex)>,
        ActorError,
    >)
        ensures
            r is Ok <==> exports_present(self.kind(), *component),
            r matches Ok(exports) ==> resolved(self.kind(), *component, exports@),
            r matches Err(e) ==> e == ActorError::ExportNotFound,
    ;

    /// The name of the interface that this capability implements.
    fn interface_name(&self) -> (name: &str)
        ensures
            name@ == self.kind().interface(),
    ;
}

/// The base actor capability, which all actors implement.
pub struct BaseActorCapability;

impl ActorCapability for BaseActorCapability {
    open spec fn kind(&self) -> CapabilityKind {
        CapabilityKind::Base
    }

    fn setup_host_functions(&self, linker: &mut wasmtime::component::Linker<HostState>) -> (r:
        Result<(), ActorError>) {
        setup_host_functions_of(CapabilityKind::Base, linker)
    }

    fn get_exports(&self, component: &wasmtime::component::Component) -> (r: Result<
        Vec<(String, wasmtime::component::ComponentExportIndex)>,
        ActorError,
    >) {
        get_exports_of(CapabilityKind::Base, component)
    }

    fn interface_name(&self) -> (name: &str) {
        CapabilityKind::Base.interface_name()
    }
}

/// The HTTP actor capability.
pub struct HttpCapability;

impl ActorCapability for HttpCapability {
    open spec fn kind(&self) -> CapabilityKind {
        CapabilityKind::Http
    }

    fn setup_host_functions(&self, linker: &mut wasmtime::component::Linker<HostState>) -> (r:
        Result<(), ActorError>) {
        setup_host_functions_of(CapabilityKind::Http, linker)
    }

    fn get_exports(&self, component: &wasmtime::component::Component) -> (r: Result<
        Vec<(String, wasmtime::component::ComponentExportIndex)>,
        ActorError,
    >) {
        get_exports_of(CapabilityKind::Http, component)
    }

    fn interface_name(&self) -> (name: &str) {
        CapabilityKind::Http.interface_name()
    }
}

/// The line that the host function `log` writes for a message.
pub open spec fn log_line(msg: Seq<char>) -> Seq<char> {
    LOG_PREFIX@ + msg
}

/// The host function `log`: records a line for the operator's log, made of
/// the prefix and the message.
pub fn log(store: &mut HostState, msg: String)
    ensures
        final(store).effects() == old(store).effects().push(
            EffectModel::Log { line: log_line(msg@) },
        ),
        final(store).refused() == old(store).refused(),
{
    let mut line = String::from_str(LOG_PREFIX);
    line.append(msg.as_str());
    store.record(HostEffect::Log { line });
}

/// Records an outbound message whose payload has been decoded.
pub fn record_send(store: &mut HostState, address: String, message: serde_json::Value)
    ensures
        final(store).effects() == old(store).effects().push(
            EffectModel::Send { address: address@, payload: json_model(message) },
        ),
        final(store).refused() == old(store).refused(),
{
    store.record(HostEffect::Send { address, payload: message });
}

/// What the host function `send` of the base interface does with a payload:
/// one that decodes is recorded as a message for the address. One that does
/// not is refused with `DecodeError`: the refusal is recorded, and the
/// effects stay as they were.
pub open spec fn send_outcome(
    before: HostState,
    after: HostState,
    address: Seq<char>,
    msg: Seq<u8>,
    r: Result<(), ActorError>,
) -> bool {
    match json_parse(msg) {
        Some(message) => {
            &&& r is Ok
            &&& after.effects() == before.effects().push(
                EffectModel::Send { address, payload: message },
            )
            &&& after.refused() == before.refused()
        },
        None => {
            &&& r == Err::<(), ActorError>(ActorError::DecodeError)
            &&& after.effects() == before.effects()
            &&& after.refused()
        },
    }
}

/// The host function `send` of the base capability. The payload must decode
/// as a structured value: then the message is recorded, to be put into the
/// chain and delivered when the call is over. Otherwise the call fails with
/// `DecodeError`, no message is recorded, and the refusal is.
pub fn send(store: &mut HostState, address: String, msg: Vec<u8>) -> (r: Result<(), ActorError>)
    ensures
        send_outcome(*old(store), *final(store), address@, msg@, r),
{
    match parse_json(msg.as_slice()) {
        Ok(message) => {
            record_send(store, address, message);
            Ok(())
        },
        Err(_) => {
            store.refuse_payload();
            Err(ActorError::DecodeError)
        },
    }
}

/// The host function `send` as an interface offers it. The base interface
/// sends as [`send`] does. The HTTP interface has no outbound delivery of its
/// own: there the call fails with `UnsupportedCapability` and nothing is
/// recorded, so the sandbox is aborted and its caller sees a trap.
pub fn dispatch_send(kind: CapabilityKind, store: &mut HostState, address: String, msg: Vec<u8>) -> (r:
    Result<(), ActorError>)
    ensures
        match kind {
            CapabilityKind::Base => send_outcome(*old(store), *final(store), address@, msg@, r),
            CapabilityKind::Http => r == Err::<(), ActorError>(ActorError::UnsupportedCapability)
                && final(store).effects() == old(store).effects() && final(store).refused()
                == old(store).refused(),
        },
{
    match kind {
        CapabilityKind::Base => send(store, address, msg),
        CapabilityKind::Http => Err(ActorError::UnsupportedCapability),
    }
}

} // verus!
