use runtime_v2::capabilities::{
    ActorCapability, BaseActorCapability, CapabilityKind, HttpCapability,
};
use runtime_v2::chain_emitter::ChainEmitter;
use runtime_v2::error::ActorError;
use runtime_v2::http::{admit_request, enqueue_status};
use runtime_v2::runtime::{ActorMessage, ActorRuntime};
use runtime_v2::store::HostState;
use runtime_v2::wasm::WasmActor;

const RESPONSE: &str = r#"},"response":{"status":201,"headers":{"fields":[["content-type","text/plain"],["x-actor","echo"]]},"body":[111,107]}}"#;

fn escape(bytes: &str) -> String {
    let mut out = String::new();
    for b in bytes.bytes() {
        out.push_str(&format!("\\{:02x}", b));
    }
    out
}

/// A component that exports the base interface and, where `http` says so, the
/// HTTP interface. `handle` returns `{"msg": <message>, "state": <state>}`;
/// `handle-http` returns an envelope whose state is
/// `{"request": <request record>, "previous": <state>}`. With `http_send`
/// the export `handle-http` first calls the host function `send` of the HTTP
/// namespace.
fn echo_component(http: bool, http_send: bool) -> String {
    let pieces = [
        (1024, r#"{"msg":"#),
        (1100, r#","state":"#),
        (1200, "}"),
        (1300, r#"{"state":{"request":"#),
        (1400, r#","previous":"#),
        (1500, RESPONSE),
        (2000, r#"{"count":0}"#),
        (2100, "{}"),
        (2200, "http://peer/x"),
    ];
    let mut data = String::new();
    for (at, text) in pieces {
        data.push_str(&format!("    (data (i32.const {at}) \"{}\")\n", escape(text)));
    }
    let len = |at: i32| pieces.iter().find(|p| p.0 == at).unwrap().1.len();
    let copy = |from: String, n: String| {
        format!(
            "(memory.copy (local.get $out) {from} {n}) (local.set $out (i32.add (local.get $out) {n}))\n"
        )
    };
    let fixed = |at: i32| copy(format!("(i32.const {at})"), format!("(i32.const {})", len(at)));
    let param = |p: u32| copy(format!("(local.get {p})"), format!("(local.get {})", p + 1));
    let finish = "(i32.store (i32.const 0) (i32.const 16384))
      (i32.store (i32.const 4) (i32.sub (local.get $out) (i32.const 16384)))
      (i32.const 0)";
    let handle = format!("{}{}{}{}{}", fixed(1024), param(0), fixed(1100), param(2), fixed(1200));
    let handle_http =
        format!("{}{}{}{}{}", fixed(1300), param(0), fixed(1400), param(2), fixed(1500));
    let call_send = if http_send {
        format!(
            "(call $send (i32.const 2200) (i32.const {}) (i32.const 2100) (i32.const 2))",
            len(2200)
        )
    } else {
        String::new()
    };
    let http_import = if http_send {
        r#"(import "ntwk:simple-http-actor/http-runtime" (instance $runtime
    (export "log" (func (param "msg" string)))
    (export "send" (func (param "address" string) (param "msg" (list u8))))
  ))"#
    } else {
        ""
    };
    let lowered = if http_send {
        r#"(core func $send (canon lower (func $runtime "send") (memory (core memory $libc "memory")) (realloc (core func $libc "realloc"))))"#
    } else {
        r#"(core module $none (func (export "send") (param i32 i32 i32 i32)))
  (core instance $stub (instantiate $none))
  (alias core export $stub "send" (core func $send))"#
    };
    let lift = |name: &str, core: &str, typ: &str| {
        format!(
            "  (func ${name} {typ}\n    (canon lift (core func $i \"{core}\") (memory (core memory $libc \"memory\")) (realloc (core func $libc \"realloc\"))))\n"
        )
    };
    let binary = r#"(param "first" $bytes) (param "second" $bytes) (result $bytes)"#;
    let nullary = "(result $bytes)";
    let mut lifted = String::new();
    lifted.push_str(&lift("init", "init", nullary));
    lifted.push_str(&lift("handle", "handle", binary));
    lifted.push_str(&lift("contract", "contract", nullary));
    lifted.push_str(&lift("handle-http", "handle-http", binary));
    let base_exports = r#"(export "init" (func $init))
    (export "handle" (func $handle))
    (export "state-contract" (func $contract))
    (export "message-contract" (func $contract))"#;
    let http_instance = if http {
        format!(
            r#"(instance $http-actor
    {base_exports}
    (export "http-contract" (func $contract))
    (export "handle-http" (func $handle-http)))
  (export "ntwk:simple-http-actor/http-actor" (instance $http-actor))"#
        )
    } else {
        String::new()
    };
    format!(
        r#"(component
  {http_import}
  (core module $libc
    (memory (export "memory") 1)
    (global $next (mut i32) (i32.const 8192))
    (func (export "realloc") (param i32 i32 i32 i32) (result i32)
      (local $ret i32)
      (local.set $ret (global.get $next))
      (global.set $next (i32.add (global.get $next) (i32.add (local.get 3) (i32.const 8))))
      (local.get $ret))
  )
  (core instance $libc (instantiate $libc))
  {lowered}
  (core module $m
    (import "libc" "memory" (memory 1))
    (import "host" "send" (func $send (param i32 i32 i32 i32)))
{data}
    (func (export "init") (result i32)
      (i32.store (i32.const 0) (i32.const 2000))
      (i32.store (i32.const 4) (i32.const {init_len}))
      (i32.const 0))
    (func (export "contract") (result i32)
      (i32.store (i32.const 0) (i32.const 2100))
      (i32.store (i32.const 4) (i32.const 2))
      (i32.const 0))
    (func (export "handle") (param i32 i32 i32 i32) (result i32)
      (local $out i32)
      (local.set $out (i32.const 16384))
      {handle}
      {finish})
    (func (export "handle-http") (param i32 i32 i32 i32) (result i32)
      (local $out i32)
      (local.set $out (i32.const 16384))
      {call_send}
      {handle_http}
      {finish})
  )
  (core instance $i (instantiate $m
    (with "libc" (instance $libc))
    (with "host" (instance (export "send" (func $send))))
  ))
  (type $bytes (list u8))
{lifted}
  (instance $actor
    {base_exports})
  (export "ntwk:simple-actor/actor" (instance $actor))
  {http_instance}
)"#,
        init_len = len(2000),
    )
}

fn small_engine() -> wasmtime::Engine {
    let mut config = wasmtime::Config::new();
    config.memory_reservation(1 << 20);
    config.memory_reservation_for_growth(1 << 20);
    config.memory_guard_size(1 << 16);
    wasmtime::Engine::new(&config).unwrap()
}

fn compiled(text: &str) -> (wasmtime::Engine, wasmtime::component::Component) {
    let engine = small_engine();
    let component = wasmtime::component::Component::new(&engine, text.as_bytes()).unwrap();
    (engine, component)
}

fn echo_actor(http: bool, http_send: bool) -> WasmActor {
    let (engine, component) = compiled(&echo_component(http, http_send));
    WasmActor::with_component(engine, component, http).unwrap()
}

fn started(http: bool, http_send: bool) -> ActorRuntime {
    let (runtime, step) =
        ActorRuntime::start(echo_actor(http, http_send), ChainEmitter::new(1000), "t0");
    assert_eq!(step.failure, None);
    runtime.unwrap()
}

fn value(text: &str) -> serde_json::Value {
    serde_json::from_str(text).unwrap()
}

fn regular(text: &str) -> ActorMessage {
    ActorMessage::Regular { content: value(text), response: None }
}

#[test]
fn handle_is_called_with_the_encoded_message_and_state() {
    let actor = echo_actor(false, false);
    let invocation = actor.handle_message(&value(r#"{"op": "inc"}"#), &value(r#"{"count": 0}"#));
    let (output, state) = invocation.outcome.unwrap();
    assert_eq!(state, value(r#"{"msg": {"op": "inc"}, "state": {"count": 0}}"#));
    assert_eq!(output, state);
    assert!(invocation.effects.is_empty());
}

#[test]
fn messages_are_processed_in_order_each_on_the_state_left_by_the_one_before() {
    let mut runtime = started(false, false);
    assert_eq!(runtime.current_state(), &value(r#"{"count": 0}"#));
    for n in 1..=3 {
        let step = runtime.process(regular(&format!("{n}")), "t");
        assert_eq!(step.failure, None);
    }
    assert_eq!(
        runtime.current_state(),
        &value(
            r#"{"msg": 3, "state": {"msg": 2, "state": {"msg": 1, "state": {"count": 0}}}}"#
        )
    );
}

#[test]
fn mailbox_hands_messages_over_in_the_order_they_were_enqueued() {
    let mut runtime = started(false, false);
    let (tx, mut mailbox) = tokio::sync::mpsc::channel::<ActorMessage>(32);
    let mut replies = Vec::new();
    for n in 0..32 {
        let (reply_tx, reply_rx) = tokio::sync::oneshot::channel();
        let msg = ActorMessage::Regular { content: value(&format!("{n}")), response: Some(reply_tx) };
        assert!(tx.try_send(msg).is_ok());
        replies.push(reply_rx);
    }
    assert!(tx.try_send(regular("32")).is_err());
    let mut expected = value(r#"{"count": 0}"#);
    let mut n = 0;
    while let Ok(msg) = mailbox.try_recv() {
        let step = runtime.process(msg, "t");
        assert_eq!(step.failure, None);
        let mut next = serde_json::Map::new();
        next.insert("msg".to_string(), serde_json::Value::from(n as u64));
        next.insert("state".to_string(), expected);
        expected = serde_json::Value::Object(next);
        assert_eq!(runtime.current_state(), &expected);
        assert_eq!(replies[n].try_recv().unwrap(), Ok(expected.clone()));
        n += 1;
    }
    assert_eq!(n, 32);
}

#[test]
fn http_request_is_answered_and_its_state_committed() {
    let mut runtime = started(true, false);
    let (tx, mut rx) = tokio::sync::oneshot::channel();
    let step = runtime.process(
        ActorMessage::Http {
            method: "PUT".to_string(),
            uri: "/things/1".to_string(),
            headers: vec![("accept".to_string(), "*/*".to_string())],
            body: Some(vec![1, 2, 255]),
            response: tx,
        },
        "t1",
    );
    assert_eq!(step.failure, None);
    let (status, headers, body) = rx.try_recv().unwrap().unwrap();
    assert_eq!(status, 201);
    assert_eq!(
        headers,
        vec![
            ("content-type".to_string(), "text/plain".to_string()),
            ("x-actor".to_string(), "echo".to_string())
        ]
    );
    assert_eq!(body, Some(vec![111, 107]));
    assert_eq!(
        runtime.current_state(),
        &value(
            r#"{"request": {"method": "PUT", "uri": "/things/1",
                            "headers": {"fields": [["accept", "*/*"]]},
                            "body": [1, 2, 255]},
                "previous": {"count": 0}}"#
        )
    );
}

#[test]
fn http_request_without_body_is_handed_over_with_null_body() {
    let actor = echo_actor(true, false);
    let invocation =
        actor.handle_http("GET".to_string(), "/".to_string(), vec![], None, &value("7"));
    let (status, _, _, state) = invocation.outcome.unwrap();
    assert_eq!(status, 201);
    assert_eq!(
        state,
        value(
            r#"{"request": {"method": "GET", "uri": "/", "headers": {"fields": []}, "body": null},
                "previous": 7}"#
        )
    );
}

#[test]
fn http_request_to_an_actor_without_the_interface_is_refused_before_any_call() {
    let actor = echo_actor(false, false);
    assert!(!actor.supports_http());
    let invocation =
        actor.handle_http("GET".to_string(), "/".to_string(), vec![], None, &value("7"));
    assert_eq!(invocation.outcome.err(), Some(ActorError::UnsupportedCapability));
    assert!(invocation.effects.is_empty());
    assert!(echo_actor(true, false).supports_http());
}

#[test]
fn send_from_the_http_interface_fails_the_call() {
    let mut runtime = started(true, true);
    let (tx, mut rx) = tokio::sync::oneshot::channel();
    let step = runtime.process(
        ActorMessage::Http {
            method: "GET".to_string(),
            uri: "/".to_string(),
            headers: vec![],
            body: None,
            response: tx,
        },
        "t1",
    );
    assert_eq!(step.failure, Some(ActorError::Trap));
    assert_eq!(rx.try_recv().unwrap(), Err(ActorError::Trap));
    assert!(step.deliveries.is_empty());
    assert!(runtime.chain().get_history().is_empty());
    assert_eq!(runtime.current_state(), &value(r#"{"count": 0}"#));
}

#[test]
fn a_failed_message_does_not_stop_the_next_one() {
    let mut runtime = started(false, false);
    let (tx, _rx) = tokio::sync::oneshot::channel();
    let refused = runtime.process(
        ActorMessage::Http {
            method: "GET".to_string(),
            uri: "/".to_string(),
            headers: vec![],
            body: None,
            response: tx,
        },
        "t1",
    );
    assert_eq!(refused.failure, Some(ActorError::UnsupportedCapability));
    let step = runtime.process(regular("1"), "t2");
    assert_eq!(step.failure, None);
    assert_eq!(runtime.current_state(), &value(r#"{"msg": 1, "state": {"count": 0}}"#));
}

#[test]
fn bridge_forwards_a_post_to_the_mailbox() {
    let mut runtime = started(false, false);
    let (tx, mut mailbox) = tokio::sync::mpsc::channel::<ActorMessage>(1);
    let msg = admit_request("POST", br#"{"op":"inc"}"#).ok().unwrap();
    assert_eq!(enqueue_status(tx.try_send(msg).is_ok()), 200);
    let second = admit_request("POST", br#"{"op":"inc"}"#).ok().unwrap();
    assert_eq!(enqueue_status(tx.try_send(second).is_ok()), 500);
    assert!(admit_request("GET", b"{}").is_err());
    let step = runtime.process(mailbox.try_recv().unwrap(), "t");
    assert_eq!(step.failure, None);
    assert_eq!(
        runtime.current_state(),
        &value(r#"{"msg": {"op": "inc"}, "state": {"count": 0}}"#)
    );
    assert!(mailbox.try_recv().is_err());
}

#[test]
fn capabilities_name_their_interfaces() {
    assert_eq!(BaseActorCapability.interface_name(), "ntwk:simple-actor/actor");
    assert_eq!(HttpCapability.interface_name(), "ntwk:simple-http-actor/http-actor");
    assert_eq!(CapabilityKind::Base.namespace_name(), "ntwk:simple-actor/runtime");
    assert_eq!(CapabilityKind::Http.namespace_name(), "ntwk:simple-http-actor/http-runtime");
    assert_eq!(
        CapabilityKind::Base.required_export_names(),
        vec!["init", "handle", "state-contract", "message-contract"]
    );
    assert_eq!(
        CapabilityKind::Http.required_export_names(),
        vec!["init", "handle", "state-contract", "message-contract", "http-contract", "handle-http"]
    );
}

#[test]
fn capabilities_resolve_their_exports_in_order() {
    let (_, component) = compiled(&echo_component(true, false));
    let base = BaseActorCapability.get_exports(&component).unwrap();
    let names: Vec<&str> = base.iter().map(|e| e.0.as_str()).collect();
    assert_eq!(names, vec!["init", "handle", "state-contract", "message-contract"]);
    let interface = component.get_export_index(None, "ntwk:simple-actor/actor").unwrap();
    for (name, index) in &base {
        assert_eq!(component.get_export_index(Some(&interface), name), Some(*index));
    }
    let http = HttpCapability.get_exports(&component).unwrap();
    let names: Vec<&str> = http.iter().map(|e| e.0.as_str()).collect();
    assert_eq!(
        names,
        vec!["init", "handle", "state-contract", "message-contract", "http-contract", "handle-http"]
    );
    let interface =
        component.get_export_index(None, "ntwk:simple-http-actor/http-actor").unwrap();
    for (name, index) in &http {
        assert_eq!(component.get_export_index(Some(&interface), name), Some(*index));
    }
    assert_ne!(base[0].1, http[0].1);
}

#[test]
fn capability_without_its_interface_finds_no_exports() {
    let (_, component) = compiled(&echo_component(false, false));
    assert!(BaseActorCapability.get_exports(&component).is_ok());
    assert_eq!(HttpCapability.get_exports(&component).err(), Some(ActorError::ExportNotFound));
    assert_eq!(
        WasmActor::with_component(small_engine(), component, true).err(),
        Some(ActorError::ExportNotFound)
    );
}

#[test]
fn host_functions_are_set_up_once_per_namespace() {
    let engine = small_engine();
    let mut linker = wasmtime::component::Linker::<HostState>::new(&engine);
    assert_eq!(BaseActorCapability.setup_host_functions(&mut linker), Ok(()));
    assert_eq!(HttpCapability.setup_host_functions(&mut linker), Ok(()));
    assert_eq!(
        BaseActorCapability.setup_host_functions(&mut linker),
        Err(ActorError::SandboxLoadError)
    );
    assert_eq!(
        HttpCapability.setup_host_functions(&mut linker),
        Err(ActorError::SandboxLoadError)
    );
    let (_, component) = compiled(&echo_component(true, true));
    let mut fresh = wasmtime::component::Linker::<HostState>::new(component.engine());
    let mut store = wasmtime::Store::new(component.engine(), HostState::new());
    assert!(fresh.instantiate(&mut store, &component).is_err());
    assert_eq!(HttpCapability.setup_host_functions(&mut fresh), Ok(()));
    assert!(fresh.instantiate(&mut store, &component).is_ok());
}

#[test]
fn a_list_of_messages_is_handled_first_message_first() {
    let mut runtime = started(true, false);
    let mut replies = Vec::new();
    let mut messages = Vec::new();
    for n in 1..=3u64 {
        let (tx, rx) = tokio::sync::oneshot::channel();
        messages.push(ActorMessage::Regular {
            content: serde_json::Value::from(n),
            response: Some(tx),
        });
        replies.push(rx);
    }
    let (http_tx, mut http_rx) = tokio::sync::oneshot::channel();
    messages.push(ActorMessage::Http {
        method: "GET".to_string(),
        uri: "/".to_string(),
        headers: vec![],
        body: None,
        response: http_tx,
    });
    let (steps, _) = runtime.process_all(messages, "t");
    assert_eq!(steps.len(), 4);
    assert!(steps.iter().all(|step| step.failure.is_none()));
    let after_three =
        value(r#"{"msg": 3, "state": {"msg": 2, "state": {"msg": 1, "state": {"count": 0}}}}"#);
    assert_eq!(
        replies[0].try_recv().unwrap(),
        Ok(value(r#"{"msg": 1, "state": {"count": 0}}"#))
    );
    assert_eq!(
        replies[1].try_recv().unwrap(),
        Ok(value(r#"{"msg": 2, "state": {"msg": 1, "state": {"count": 0}}}"#))
    );
    assert_eq!(replies[2].try_recv().unwrap(), Ok(after_three.clone()));
    assert_eq!(http_rx.try_recv().unwrap().unwrap().0, 201);
    assert_eq!(runtime.current_state()["previous"], after_three);
    let (none, _) = runtime.process_all(Vec::new(), "t");
    assert!(none.is_empty());
}

#[test]
fn a_failed_message_in_a_list_leaves_the_others_their_turn() {
    let mut runtime = started(false, false);
    let (tx, _rx) = tokio::sync::oneshot::channel();
    let messages = vec![
        regular("1"),
        ActorMessage::Http {
            method: "GET".to_string(),
            uri: "/".to_string(),
            headers: vec![],
            body: None,
            response: tx,
        },
        regular("2"),
    ];
    let (steps, _) = runtime.process_all(messages, "t");
    assert_eq!(steps[0].failure, None);
    assert_eq!(steps[1].failure, Some(ActorError::UnsupportedCapability));
    assert_eq!(steps[2].failure, None);
    assert_eq!(
        runtime.current_state(),
        &value(r#"{"msg": 2, "state": {"msg": 1, "state": {"count": 0}}}"#)
    );
}
