//! The HTTP bridge, as far as it decides anything.
//!
//! The bridge accepts a POST with a structured value as its body and forwards
//! it to the actor as a message without a reply slot. Listening, reading the
//! request and putting the message into the mailbox are the caller's part;
//! what is answered is decided here.
use vstd::prelude::*;
use vstd::string::StringExecFns;
use crate::json::{json_as_u64, json_index, json_model, json_parse, parse_json};
use crate::runtime::ActorMessage;

verus! {

/// The only method that the bridge accepts.
pub const METHOD_POST: &'static str = "POST";

/// The status of a request that was forwarded.
pub const STATUS_OK: u16 = 200;

/// The status of a request with another method than POST.
pub const STATUS_METHOD_NOT_ALLOWED: u16 = 405;

/// The status of a POST whose body is no structured value.
pub const STATUS_UNPROCESSABLE: u16 = 422;

/// The status of a request that could not be put into the mailbox.
pub const STATUS_INTERNAL_ERROR: u16 = 500;

/// The HTTP bridge of an actor: the port it listens on.
pub struct HttpHandler {
    port: u16,
}

impl HttpHandler {
    /// The port that the bridge listens on.
    pub closed spec fn spec_port(&self) -> u16 {
        self.port
    }

    /// A bridge on the given port.
    pub fn new(port: u16) -> (handler: HttpHandler)
        ensures
            handler.spec_port() == port,
    {
        HttpHandler { port }
    }

    /// A bridge on the port that a configuration names in its member `port`:
    /// an unsigned integer, of which the low 16 bits count. `None` where
    /// there is no such member.
    pub fn from_config(config: &serde_json::Value) -> (r: Option<HttpHandler>)
        ensures
            match json_model(*config).member("port"@).as_u64() {
                Some(n) => r matches Some(handler) && handler.spec_port() == (n % 0x10000) as u16,
                None => r is None,
            },
    {
        match json_as_u64(json_index(config, "port")) {
            Some(n) => Some(HttpHandler { port: (n % 0x10000) as u16 }),
            None => None,
        }
    }

    /// The name of this handler.
    pub fn name(&self) -> (name: &'static str)
        ensures
            name@ == "http"@,
    {
        "http"
    }

    /// See [`HttpHandler::spec_port`].
    pub fn port(&self) -> (port: u16)
        ensures
            port == self.spec_port(),
    {
        self.port
    }
}

/// The status that a request is refused with for its method alone: 405 for
/// every method but POST, and none for POST.
pub fn method_status(method: &str) -> (refusal: Option<u16>)
    ensures
        refusal == if method@ == METHOD_POST@ {
            None
        } else {
            Some(STATUS_METHOD_NOT_ALLOWED)
        },
{
    let given = String::from_str(method);
    let post = String::from_str(METHOD_POST);
    if given == post {
        None
    } else {
        Some(STATUS_METHOD_NOT_ALLOWED)
    }
}

/// The message that a payload is forwarded as: a regular message without a
/// reply slot.
pub fn forward(payload: serde_json::Value) -> (msg: ActorMessage)
    ensures
        msg matches ActorMessage::Regular { content, response } && json_model(content)
            == json_model(payload) && response is None,
{
    ActorMessage::Regular { content: payload, response: None }
}

/// Decides on a request before anything is put into the mailbox. Any method
/// but POST is refused with 405. A POST whose body is no structured value is
/// refused with 422. Any other POST gives the message to enqueue.
pub fn admit_request(method: &str, body: &[u8]) -> (r: Result<ActorMessage, u16>)
    ensures
        method@ != METHOD_POST@ ==> r == Err::<ActorMessage, u16>(STATUS_METHOD_NOT_ALLOWED),
        method@ == METHOD_POST@ ==> match json_parse(body@) {
            Some(payload) => r matches Ok(ActorMessage::Regular { content, response })
                && json_model(content) == payload && response is None,
            None => r == Err::<ActorMessage, u16>(STATUS_UNPROCESSABLE),
        },
{
    match method_status(method) {
        Some(status) => Err(status),
        None => match parse_json(body) {
            Ok(payload) => Ok(forward(payload)),
            Err(_) => Err(STATUS_UNPROCESSABLE),
        },
    }
}

/// The status that answers an admitted request: 200 where the message was
/// put into the mailbox, 500 where it was not.
pub fn enqueue_status(enqueued: bool) -> (status: u16)
    ensures
        status == if enqueued {
            STATUS_OK
        } else {
            STATUS_INTERNAL_ERROR
        },
{
    if enqueued {
        STATUS_OK
    } else {
        STATUS_INTERNAL_ERROR
    }
}

} // verus!
