//! Events: the records that host functions produce.
use vstd::prelude::*;
use vstd::string::StringExecFns;
use crate::json::{
    fields_model, json_clone, json_model, json_null, json_object, json_string, Json,
};

verus! {

/// The state of an actor: a structured value.
pub type State = serde_json::Value;

/// What an actor hands back for a message: a structured value.
pub type ActorOutput = serde_json::Value;

/// The type of the event that records an outbound message.
pub const ACTOR_MESSAGE: &'static str = "actor-message";

/// The type of the event that stands for nothing having happened.
pub const NOOP: &'static str = "noop";

/// Something that happened, with its data.
#[derive(Debug)]
pub struct Event {
    /// The type of event that occurred.
    pub type_: String,
    /// The data associated with this event.
    pub data: serde_json::Value,
}

/// What an [`Event`] holds.
pub struct EventModel {
    pub type_: Seq<char>,
    pub data: Json,
}

impl View for Event {
    type V = EventModel;

    open spec fn view(&self) -> EventModel {
        EventModel { type_: self.type_@, data: json_model(self.data) }
    }
}

impl Clone for Event {
    fn clone(&self) -> (copy: Event)
        ensures
            copy@ == self@,
    {
        Event { type_: self.type_.clone(), data: json_clone(&self.data) }
    }
}

/// The data of the event that records a message for `address`: the object
/// with the members `address` and `message`.
pub open spec fn message_data(address: Seq<char>, message: Json) -> Json {
    Json::Object(map!["address"@ => Json::String(address), "message"@ => message])
}

impl Event {
    /// The event that stands for nothing having happened.
    pub fn noop() -> (event: Event)
        ensures
            event@ == (EventModel { type_: NOOP@, data: Json::Null }),
    {
        Event { type_: String::from_str(NOOP), data: json_null() }
    }

    /// The event that records a message for another actor: its type is
    /// `actor-message`, and its data name the address and the message.
    pub fn actor_message(address: &str, message: &serde_json::Value) -> (event: Event)
        ensures
            event@ == (EventModel {
                type_: ACTOR_MESSAGE@,
                data: message_data(address@, json_model(*message)),
            }),
    {
        let mut fields: Vec<(String, serde_json::Value)> = Vec::new();
        fields.push((String::from_str("address"), json_string(String::from_str(address))));
        fields.push((String::from_str("message"), json_clone(message)));
        proof {
            reveal_strlit("address");
            reveal_strlit("message");
            assert("address"@[0] != "message"@[0]);
        }
        let data = json_object(fields);
        proof {
            reveal_with_fuel(fields_model, 3);
        }
        Event { type_: String::from_str(ACTOR_MESSAGE), data }
    }
}

} // verus!
