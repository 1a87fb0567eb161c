//! The component host: runs one request against the sandboxed component.
//!
//! Every invocation instantiates the component in a store of its own. State
//! is never kept inside the sandbox: it goes in as bytes and comes out as
//! bytes, each time. What the sandbox asks of the outside world while it runs
//! is recorded and handed back with the outcome.
use vstd::prelude::*;
use crate::capabilities::{
    exports_present, get_exports_of, offers_host_functions, setup_host_functions_of,
    CapabilityKind,
};
use crate::config::ActorConfig;
use crate::envelope::{
    body_of, body_view, header_views, headers_of, http_request_record, http_response_from,
    request_json, status_of,
};
use crate::error::ActorError;
use crate::json::{
    json_clone, json_model, json_parse, json_text, lossless, parse_json, print_json, Json,
};
use crate::sandbox::{
    component_export, component_get_export_index, component_new, engine_default,
    func_typed_binary, func_typed_nullary, instance_get_func, linker_instantiate, linker_names,
    linker_new, store_into_data, store_new, typed_call_binary, typed_call_nullary,
};
use crate::store::{HostEffect, HostState};

verus! {

/// What an HTTP call yields: status, headers, body, and the new state.
pub type HttpOutcome = (u16, Vec<(String, String)>, Option<Vec<u8>>, serde_json::Value);

/// The name of the export that gives the first state.
pub const INIT_EXPORT: &'static str = "init";

/// The name of the export that handles a message.
pub const HANDLE_EXPORT: &'static str = "handle";

/// The name of the export that handles an HTTP request.
pub const HANDLE_HTTP_EXPORT: &'static str = "handle-http";

/// The arguments of an export: none, or two byte strings.
pub enum CallArgs {
    Nullary,
    Binary(Vec<u8>, Vec<u8>),
}

impl CallArgs {
    /// The byte strings handed over, in order.
    pub open spec fn bytes(&self) -> Seq<Seq<u8>> {
        match self {
            CallArgs::Nullary => seq![],
            CallArgs::Binary(first, second) => seq![first@, second@],
        }
    }
}

/// A call of an export: the interface it belongs to, its name, and the byte
/// strings it is handed.
pub struct CallModel {
    pub interface: CapabilityKind,
    pub export: Seq<char>,
    pub arguments: Seq<Seq<u8>>,
}

/// An export to run, with its arguments.
pub struct ExportCall {
    pub interface: CapabilityKind,
    pub export: &'static str,
    pub arguments: CallArgs,
}

impl View for ExportCall {
    type V = CallModel;

    open spec fn view(&self) -> CallModel {
        CallModel {
            interface: self.interface,
            export: self.export@,
            arguments: self.arguments.bytes(),
        }
    }
}

/// The call that gives the first state: `init` of the base interface,
/// without arguments.
pub open spec fn init_call() -> CallModel {
    CallModel { interface: CapabilityKind::Base, export: INIT_EXPORT@, arguments: seq![] }
}

/// The call that handles a message: `handle` of the base interface, on the
/// encoded message and the encoded state, in this order.
pub open spec fn handle_call(msg: Json, state: Json) -> CallModel {
    CallModel {
        interface: CapabilityKind::Base,
        export: HANDLE_EXPORT@,
        arguments: seq![json_text(msg), json_text(state)],
    }
}

/// The call that handles an HTTP request: `handle-http` of the HTTP
/// interface, on the encoded request record and the encoded state, in this
/// order.
pub open spec fn http_call(request: Json, state: Json) -> CallModel {
    CallModel {
        interface: CapabilityKind::Http,
        export: HANDLE_HTTP_EXPORT@,
        arguments: seq![json_text(request), json_text(state)],
    }
}

impl ExportCall {
    /// See [`init_call`].
    pub fn init() -> (call: ExportCall)
        ensures
            call@ == init_call(),
    {
        ExportCall {
            interface: CapabilityKind::Base,
            export: INIT_EXPORT,
            arguments: CallArgs::Nullary,
        }
    }

    /// The call of `handle` of the base interface on the given arguments.
    pub fn handle(arguments: CallArgs) -> (call: ExportCall)
        ensures
            call@ == (CallModel {
                interface: CapabilityKind::Base,
                export: HANDLE_EXPORT@,
                arguments: arguments.bytes(),
            }),
    {
        ExportCall { interface: CapabilityKind::Base, export: HANDLE_EXPORT, arguments }
    }

    /// The call of `handle-http` of the HTTP interface on the given
    /// arguments.
    pub fn handle_http(arguments: CallArgs) -> (call: ExportCall)
        ensures
            call@ == (CallModel {
                interface: CapabilityKind::Http,
                export: HANDLE_HTTP_EXPORT@,
                arguments: arguments.bytes(),
            }),
    {
        ExportCall { interface: CapabilityKind::Http, export: HANDLE_HTTP_EXPORT, arguments }
    }
}

/// What one invocation of the sandbox left behind: the call that was made,
/// if one was made, the outcome, and the effects that the sandbox asked for
/// while it ran, oldest first. Effects are handed back whether the call
/// succeeded or not.
pub struct Invocation<T> {
    pub call: Ghost<Option<CallModel>>,
    pub outcome: Result<T, ActorError>,
    pub effects: Vec<HostEffect>,
}

/// The errors that running an export can end in without a host function
/// having refused anything.
pub open spec fn is_call_error(e: ActorError) -> bool {
    e == ActorError::SandboxLoadError || e == ActorError::ExportNotFound || e
        == ActorError::SignatureMismatch || e == ActorError::Trap
}

/// The errors that an invocation can end in: those of running the export,
/// and `DecodeError` for a payload that is no structured value, be it one
/// that the export returned or one that it handed to a host function.
pub open spec fn is_invocation_error(e: ActorError) -> bool {
    is_call_error(e) || e == ActorError::DecodeError
}

/// The outcome of a call, given whether a host function refused a payload
/// during it: a call that the sandbox aborted for that refusal fails with
/// `DecodeError`, every other call ends as it ended.
pub open spec fn call_outcome(result: Result<Vec<u8>, ActorError>, refused: bool) -> Result<
    Vec<u8>,
    ActorError,
> {
    if refused && result == Err::<Vec<u8>, ActorError>(ActorError::Trap) {
        Err(ActorError::DecodeError)
    } else {
        result
    }
}

/// See [`call_outcome`].
pub fn settle_call(result: Result<Vec<u8>, ActorError>, refused: bool) -> (outcome: Result<
    Vec<u8>,
    ActorError,
>)
    ensures
        outcome == call_outcome(result, refused),
{
    match result {
        Err(ActorError::Trap) => if refused {
            Err(ActorError::DecodeError)
        } else {
            Err(ActorError::Trap)
        },
        other => other,
    }
}

/// The state that the bytes returned by `init` or `handle` stand for.
pub open spec fn decoded(raw: Result<Vec<u8>, ActorError>) -> Result<Json, ActorError> {
    match raw {
        Ok(bytes) => match json_parse(bytes@) {
            Some(value) => Ok(value),
            None => Err(ActorError::DecodeError),
        },
        Err(e) => Err(e),
    }
}

/// Decodes what an export returned as a structured value. A failed call stays
/// the failure it was; bytes that are no structured value give `DecodeError`.
pub fn decode_state(raw: Result<Vec<u8>, ActorError>) -> (r: Result<serde_json::Value, ActorError>)
    ensures
        match decoded(raw) {
            Ok(value) => r matches Ok(v) && json_model(v) == value,
            Err(e) => r == Err::<serde_json::Value, ActorError>(e),
        },
{
    match raw {
        Ok(bytes) => match parse_json(bytes.as_slice()) {
            Ok(value) => Ok(value),
            Err(_) => Err(ActorError::DecodeError),
        },
        Err(e) => Err(e),
    }
}

/// What `handle` yields for the value that the component computed: that
/// value as the output, and as the new state.
pub fn handled(computed: serde_json::Value) -> (r: (serde_json::Value, serde_json::Value))
    ensures
        json_model(r.0) == json_model(computed),
        json_model(r.1) == json_model(computed),
{
    let output = json_clone(&computed);
    (output, computed)
}

/// Decodes what `handle` returned: see [`decode_state`] and [`handled`].
pub fn decode_handled(raw: Result<Vec<u8>, ActorError>) -> (r: Result<
    (serde_json::Value, serde_json::Value),
    ActorError,
>)
    ensures
        match decoded(raw) {
            Ok(value) => r matches Ok(pair) && json_model(pair.0) == value && json_model(pair.1)
                == value,
            Err(e) => r == Err::<(serde_json::Value, serde_json::Value), ActorError>(e),
        },
{
    match decode_state(raw) {
        Ok(value) => Ok(handled(value)),
        Err(e) => Err(e),
    }
}

/// Decodes what `handle-http` returned: the response envelope, taken apart as
/// [`http_response_from`] does.
pub fn decode_http(raw: Result<Vec<u8>, ActorError>) -> (r: Result<HttpOutcome, ActorError>)
    ensures
        match decoded(raw) {
            Ok(envelope) => {
                &&& r matches Ok(out)
                &&& out.0 == status_of(envelope.member("response"@))
                &&& header_views(out.1@) == headers_of(envelope.member("response"@))
                &&& body_view(out.2) == body_of(envelope.member("response"@))
                &&& json_model(out.3) == envelope.member("state"@)
            },
            Err(e) => r == Err::<HttpOutcome, ActorError>(e),
        },
{
    match decode_state(raw) {
        Ok(envelope) => Ok(http_response_from(&envelope)),
        Err(e) => Err(e),
    }
}

/// A compiled component together with the engine that runs it and the linker
/// that holds the host functions of its interfaces.
pub struct WasmActor {
    engine: wasmtime::Engine,
    component: wasmtime::component::Component,
    linker: wasmtime::component::Linker<HostState>,
    supports_http: bool,
}

impl WasmActor {
    /// Whether the component declared the HTTP interface.
    pub closed spec fn http_enabled(&self) -> bool {
        self.supports_http
    }

    /// The compiled component.
    pub closed spec fn component(&self) -> wasmtime::component::Component {
        self.component
    }

    /// The namespaces whose host functions are linked: that of the base
    /// interface always, that of the HTTP interface where it is declared.
    pub closed spec fn linked(&self) -> Set<Seq<char>> {
        linker_names(self.linker)
    }

    /// Whether the sandbox is offered the host functions of an interface:
    /// `log` and `send` in the interface's namespace.
    pub closed spec fn offers(&self, kind: CapabilityKind) -> bool {
        offers_host_functions(kind, self.linker)
    }

    /// The namespaces that are linked for an actor.
    pub open spec fn namespaces_for(http: bool) -> Set<Seq<char>> {
        if http {
            set![CapabilityKind::Base.namespace(), CapabilityKind::Http.namespace()]
        } else {
            set![CapabilityKind::Base.namespace()]
        }
    }

    /// Whether a component has all the exports that an actor needs.
    pub open spec fn exports_complete(
        component: wasmtime::component::Component,
        http: bool,
    ) -> bool {
        exports_present(CapabilityKind::Base, component) && (http ==> exports_present(
            CapabilityKind::Http,
            component,
        ))
    }

    /// The index of the export `name` of an interface of the component, where
    /// the component has it.
    pub open spec fn export_of(&self, kind: CapabilityKind, name: Seq<char>) -> Option<
        wasmtime::component::ComponentExportIndex,
    > {
        match component_export(self.component(), None, kind.interface()) {
            Some(interface) => component_export(self.component(), Some(interface), name),
            None => None,
        }
    }

    /// See [`WasmActor::http_enabled`].
    pub fn supports_http(&self) -> (enabled: bool)
        ensures
            enabled == self.http_enabled(),
    {
        self.supports_http
    }

    /// Wires a compiled component into a host. The base capability is always
    /// active, the HTTP capability where `supports_http` says so: their host
    /// functions are linked, and their required exports are looked up. The
    /// host is made exactly where no required export is missing; otherwise
    /// this fails with `ExportNotFound`.
    pub fn with_component(
        engine: wasmtime::Engine,
        component: wasmtime::component::Component,
        supports_http: bool,
    ) -> (r: Result<WasmActor, ActorError>)
        ensures
            r is Ok <==> Self::exports_complete(component, supports_http),
            r matches Ok(actor) ==> actor.http_enabled() == supports_http && actor.component()
                == component && actor.linked() == Self::namespaces_for(supports_http),
            r matches Ok(actor) ==> actor.offers(CapabilityKind::Base) && (supports_http
                ==> actor.offers(CapabilityKind::Http)),
            r matches Err(e) ==> e == ActorError::ExportNotFound,
    {
        let mut linker = linker_new(&engine);
        proof {
            reveal_strlit("ntwk:simple-actor/runtime");
            reveal_strlit("ntwk:simple-http-actor/http-runtime");
            assert(CapabilityKind::Base.namespace().len() != CapabilityKind::Http.namespace().len());
        }
        // A new linker defines no name, and the two namespaces differ: neither
        // setup can fail.
        match setup_host_functions_of(CapabilityKind::Base, &mut linker) {
            Ok(()) => {},
            Err(e) => {
                return Err(e);
            },
        }
        if supports_http {
            match setup_host_functions_of(CapabilityKind::Http, &mut linker) {
                Ok(()) => {},
                Err(e) => {
                    return Err(e);
                },
            }
        }
        match get_exports_of(CapabilityKind::Base, &component) {
            Ok(_) => {},
            Err(e) => {
                return Err(e);
            },
        }
        if supports_http {
            match get_exports_of(CapabilityKind::Http, &component) {
                Ok(_) => {},
                Err(e) => {
                    return Err(e);
                },
            }
        }
        Ok(WasmActor { engine, component, linker, supports_http })
    }

    /// Compiles the component that a manifest names from its bytes and wires
    /// it into a host, as [`WasmActor::with_component`] does. Bytes that do
    /// not compile give `SandboxLoadError`.
    pub fn new(config: &ActorConfig, wasm_bytes: &[u8]) -> (r: Result<WasmActor, ActorError>)
        ensures
            r matches Ok(actor) ==> actor.http_enabled() == config.declares(
                CapabilityKind::Http.interface(),
            ) && Self::exports_complete(actor.component(), actor.http_enabled())
                && actor.linked() == Self::namespaces_for(actor.http_enabled()),
            r matches Ok(actor) ==> actor.offers(CapabilityKind::Base) && (actor.http_enabled()
                ==> actor.offers(CapabilityKind::Http)),
            r matches Err(e) ==> e == ActorError::SandboxLoadError || e
                == ActorError::ExportNotFound,
    {
        let engine = engine_default();
        match component_new(&engine, wasm_bytes) {
            Ok(component) => Self::with_component(engine, component, config.supports_http()),
            Err(_) => Err(ActorError::SandboxLoadError),
        }
    }

    /// Runs one export of an interface in a fresh sandbox: a new store, a new
    /// instance, the export looked up by name, checked against the signature
    /// it is called with, and called. The effects that the sandbox recorded
    /// come back with the outcome. A call that ended because a host function
    /// refused a payload fails with `DecodeError`.
    pub fn call_export(&self, kind: CapabilityKind, name: &str, args: CallArgs) -> (inv: Invocation<
        Vec<u8>,
    >)
        ensures
            inv.call@ == Some(
                CallModel { interface: kind, export: name@, arguments: args.bytes() },
            ),
            inv.outcome matches Err(e) ==> is_invocation_error(e),
            self.export_of(kind, name@) is None ==> inv.outcome == Err::<Vec<u8>, ActorError>(
                ActorError::SandboxLoadError,
            ) || inv.outcome == Err::<Vec<u8>, ActorError>(ActorError::ExportNotFound),
    {
        let ghost call = CallModel { interface: kind, export: name@, arguments: args.bytes() };
        let mut store = store_new(&self.engine, HostState::new());
        let result = self.run_in(&mut store, kind, name, args);
        let host = store_into_data(store);
        let outcome = settle_call(result, host.payload_refused());
        Invocation { call: Ghost(Some(call)), outcome, effects: host.into_effects() }
    }

    /// Runs a call as [`WasmActor::call_export`] does.
    pub fn run(&self, call: ExportCall) -> (inv: Invocation<Vec<u8>>)
        ensures
            inv.call@ == Some(call@),
            inv.outcome matches Err(e) ==> is_invocation_error(e),
            self.export_of(call.interface, call.export@) is None ==> inv.outcome == Err::<
                Vec<u8>,
                ActorError,
            >(ActorError::SandboxLoadError) || inv.outcome == Err::<Vec<u8>, ActorError>(
                ActorError::ExportNotFound,
            ),
    {
        self.call_export(call.interface, call.export, call.arguments)
    }

    /// The steps of [`WasmActor::call_export`] inside a given store.
    fn run_in(
        &self,
        store: &mut wasmtime::Store<HostState>,
        kind: CapabilityKind,
        name: &str,
        args: CallArgs,
    ) -> (outcome: Result<Vec<u8>, ActorError>)
        ensures
            outcome matches Err(e) ==> is_call_error(e),
            self.export_of(kind, name@) is None ==> outcome == Err::<Vec<u8>, ActorError>(
                ActorError::SandboxLoadError,
            ) || outcome == Err::<Vec<u8>, ActorError>(ActorError::ExportNotFound),
    {
        let instance = match linker_instantiate(&self.linker, store, &self.component) {
            Ok(instance) => instance,
            Err(_) => {
                return Err(ActorError::SandboxLoadError);
            },
        };
        let interface = component_get_export_index(
            &self.component,
            None,
            kind.interface_name(),
        );
        if interface.is_none() {
            return Err(ActorError::ExportNotFound);
        }
        let index = match component_get_export_index(&self.component, interface, name) {
            Some(index) => index,
            None => {
                return Err(ActorError::ExportNotFound);
            },
        };
        let func = match instance_get_func(&instance, store, &index) {
            Some(func) => func,
            None => {
                return Err(ActorError::ExportNotFound);
            },
        };
        match args {
            CallArgs::Nullary => {
                let typed = match func_typed_nullary(&func, &*store) {
                    Ok(typed) => typed,
                    Err(_) => {
                        return Err(ActorError::SignatureMismatch);
                    },
                };
                match typed_call_nullary(&typed, store) {
                    Ok(bytes) => Ok(bytes),
                    Err(_) => Err(ActorError::Trap),
                }
            },
            CallArgs::Binary(first, second) => {
                let typed = match func_typed_binary(&func, &*store) {
                    Ok(typed) => typed,
                    Err(_) => {
                        return Err(ActorError::SignatureMismatch);
                    },
                };
                match typed_call_binary(&typed, store, first, second) {
                    Ok(bytes) => Ok(bytes),
                    Err(_) => Err(ActorError::Trap),
                }
            },
        }
    }

    /// Runs the export `init` and decodes the bytes it returns as the first
    /// state.
    pub fn init(&self) -> (inv: Invocation<serde_json::Value>)
        ensures
            inv.call@ == Some(init_call()),
            inv.outcome matches Ok(state) ==> exists|bytes: Seq<u8>| #[trigger]
                json_parse(bytes) == Some(json_model(state)),
            inv.outcome matches Err(e) ==> is_invocation_error(e),
    {
        let called = self.run(ExportCall::init());
        let outcome = decode_state(called.outcome);
        Invocation { call: called.call, outcome, effects: called.effects }
    }

    /// What `handle` is called with: the encoded message and the encoded
    /// state, in this order. A message or a state that is lossless decodes
    /// from its bytes unchanged.
    pub fn handle_arguments(msg: &serde_json::Value, state: &serde_json::Value) -> (r: Result<
        CallArgs,
        ActorError,
    >)
        ensures
            r matches Ok(args) && args.bytes() == seq![
                json_text(json_model(*msg)),
                json_text(json_model(*state)),
            ],
            lossless(json_model(*msg)) ==> json_parse(json_text(json_model(*msg))) == Some(
                json_model(*msg),
            ),
            lossless(json_model(*state)) ==> json_parse(json_text(json_model(*state))) == Some(
                json_model(*state),
            ),
    {
        let msg_bytes = match print_json(msg) {
            Ok(bytes) => bytes,
            Err(_) => {
                return Err(ActorError::EncodeError);
            },
        };
        match print_json(state) {
            Ok(state_bytes) => Ok(CallArgs::Binary(msg_bytes, state_bytes)),
            Err(_) => Err(ActorError::EncodeError),
        }
    }

    /// What `handle-http` is called with: the encoded request record and the
    /// encoded state, in this order.
    pub fn http_arguments(
        method: String,
        uri: String,
        headers: &Vec<(String, String)>,
        body: &Option<Vec<u8>>,
        state: &serde_json::Value,
    ) -> (r: Result<CallArgs, ActorError>)
        ensures
            r matches Ok(args) && args.bytes() == seq![
                json_text(request_json(method@, uri@, header_views(headers@), body_view(*body))),
                json_text(json_model(*state)),
            ],
            lossless(json_model(*state)) ==> json_parse(json_text(json_model(*state))) == Some(
                json_model(*state),
            ),
    {
        let request = http_request_record(method, uri, headers, body);
        Self::handle_arguments(&request, state)
    }

    /// Encodes the message and the state, runs the export `handle` on them,
    /// and decodes the bytes it returns as the new state. The output is the
    /// value that the component computed.
    pub fn handle_message(&self, msg: &serde_json::Value, state: &serde_json::Value) -> (inv:
        Invocation<(serde_json::Value, serde_json::Value)>)
        ensures
            inv.call@ == Some(handle_call(json_model(*msg), json_model(*state))),
            inv.outcome matches Ok(pair) ==> json_model(pair.0) == json_model(pair.1) && exists|
                bytes: Seq<u8>,
            | #[trigger] json_parse(bytes) == Some(json_model(pair.1)),
            inv.outcome matches Err(e) ==> is_invocation_error(e),
    {
        match Self::handle_arguments(msg, state) {
            Ok(args) => {
                let called = self.run(ExportCall::handle(args));
                let outcome = decode_handled(called.outcome);
                Invocation { call: called.call, outcome, effects: called.effects }
            },
            Err(e) => Invocation { call: Ghost(None), outcome: Err(e), effects: Vec::new() },
        }
    }

    /// Answers an HTTP request. Where the component did not declare the HTTP
    /// interface this fails with `UnsupportedCapability` before any sandbox
    /// is made, and only there. Otherwise the request record and the state
    /// are encoded, the export `handle-http` is run on them, and the response
    /// envelope that it returns is taken apart.
    pub fn handle_http(
        &self,
        method: String,
        uri: String,
        headers: Vec<(String, String)>,
        body: Option<Vec<u8>>,
        state: &serde_json::Value,
    ) -> (inv: Invocation<HttpOutcome>)
        ensures
            !self.http_enabled() ==> inv.call@ is None && inv.outcome == Err::<
                HttpOutcome,
                ActorError,
            >(ActorError::UnsupportedCapability) && inv.effects@.len() == 0,
            self.http_enabled() ==> inv.call@ == Some(
                http_call(
                    request_json(method@, uri@, header_views(headers@), body_view(body)),
                    json_model(*state),
                ),
            ),
            self.http_enabled() ==> (inv.outcome matches Err(e) ==> is_invocation_error(e)),
            inv.outcome matches Ok(out) ==> exists|bytes: Seq<u8>| #[trigger]
                json_parse(bytes) matches Some(envelope) && out.0 == status_of(
                    envelope.member("response"@),
                ) && header_views(out.1@) == headers_of(envelope.member("response"@))
                    && body_view(out.2) == body_of(envelope.member("response"@)) && json_model(
                    out.3,
                ) == envelope.member("state"@),
    {
        if !self.supports_http {
            return Invocation {
                call: Ghost(None),
                outcome: Err(ActorError::UnsupportedCapability),
                effects: Vec::new(),
            };
        }
        match Self::http_arguments(method, uri, &headers, &body, state) {
            Ok(args) => {
                let called = self.run(ExportCall::handle_http(args));
                let outcome = decode_http(called.outcome);
                Invocation { call: called.call, outcome, effects: called.effects }
            },
            Err(e) => Invocation { call: Ghost(None), outcome: Err(e), effects: Vec::new() },
        }
    }
}

} // verus!
