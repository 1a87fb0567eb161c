//! The HTTP envelope: how a request goes into the sandbox and how a response
//! comes out of it.
//!
//! A request is handed to the component as the record
//! `{"method", "uri", "headers": {"fields": [[name, value], ...]}, "body"}`,
//! where the body is an array of byte values or `null`. The component answers
//! with `{"state", "response": {"status", "headers": {"fields"}, "body"}}`.
use vstd::prelude::*;
use vstd::string::StringExecFns;
use crate::json::{
    fields_model, json_array, json_as_array, json_as_str, json_as_u64, json_clone, json_index,
    json_model, json_models, json_null, json_number, json_object, json_string, Json, JsonNumber,
};

verus! {

/// The status that stands in for one the component did not give.
pub const DEFAULT_STATUS: u16 = 500;

/// The names and values of a list of headers.
pub open spec fn header_views(headers: Seq<(String, String)>) -> Seq<(Seq<char>, Seq<char>)> {
    headers.map_values(|h: (String, String)| (h.0@, h.1@))
}

/// The bytes of a body, where there is one.
pub open spec fn body_view(body: Option<Vec<u8>>) -> Option<Seq<u8>> {
    match body {
        Some(bytes) => Some(bytes@),
        None => None,
    }
}

/// A header as it stands in an envelope: the array of its name and value.
pub open spec fn header_json(header: (Seq<char>, Seq<char>)) -> Json {
    Json::Array(seq![Json::String(header.0), Json::String(header.1)])
}

/// A byte as it stands in an envelope: a number.
pub open spec fn byte_json(byte: u8) -> Json {
    Json::Number(JsonNumber::PosInt(byte as u64))
}

/// A body as it stands in an envelope: the array of its bytes, or `null`.
pub open spec fn body_json(body: Option<Seq<u8>>) -> Json {
    match body {
        Some(bytes) => Json::Array(bytes.map_values(|b: u8| byte_json(b))),
        None => Json::Null,
    }
}

/// The record that stands for a request.
pub open spec fn request_json(
    method: Seq<char>,
    uri: Seq<char>,
    headers: Seq<(Seq<char>, Seq<char>)>,
    body: Option<Seq<u8>>,
) -> Json {
    Json::Object(
        map![
            "method"@ => Json::String(method),
            "uri"@ => Json::String(uri),
            "headers"@ => Json::Object(
                map!["fields"@ => Json::Array(
                    headers.map_values(|h: (Seq<char>, Seq<char>)| header_json(h)),
                )],
            ),
            "body"@ => body_json(body),
        ],
    )
}

/// The status of a response: its member `status` where that is an unsigned
/// integer, cut to 16 bits; 500 otherwise.
pub open spec fn status_of(response: Json) -> u16 {
    match response.member("status"@).as_u64() {
        Some(n) => (n % 0x10000) as u16,
        None => DEFAULT_STATUS,
    }
}

/// The header that an item of `fields` stands for: an array that starts with
/// two strings gives their pair, anything else gives none.
pub open spec fn header_of(item: Json) -> Option<(Seq<char>, Seq<char>)> {
    match item.as_array() {
        Some(pair) => if pair.len() >= 2 && pair[0].as_str() is Some && pair[1].as_str() is Some {
            Some((pair[0].as_str().unwrap(), pair[1].as_str().unwrap()))
        } else {
            None
        },
        None => None,
    }
}

/// The headers that a list of items stands for, in order; items that stand
/// for no header are left out.
pub open spec fn headers_among(items: Seq<Json>) -> Seq<(Seq<char>, Seq<char>)>
    decreases items.len(),
{
    if items.len() == 0 {
        seq![]
    } else {
        match header_of(items.last()) {
            Some(header) => headers_among(items.drop_last()).push(header),
            None => headers_among(items.drop_last()),
        }
    }
}

/// The headers of a response: those among `headers.fields` where that is an
/// array, none otherwise.
pub open spec fn headers_of(response: Json) -> Seq<(Seq<char>, Seq<char>)> {
    match response.member("headers"@).member("fields"@).as_array() {
        Some(items) => headers_among(items),
        None => seq![],
    }
}

/// The byte that an item of a body stands for: an unsigned integer cut to 8
/// bits, and 0 for anything else.
pub open spec fn byte_of(item: Json) -> u8 {
    match item.as_u64() {
        Some(n) => (n % 0x100) as u8,
        None => 0,
    }
}

/// The body of a response: the bytes of its member `body` where that is an
/// array, none otherwise.
pub open spec fn body_of(response: Json) -> Option<Seq<u8>> {
    match response.member("body"@).as_array() {
        Some(items) => Some(items.map_values(|item: Json| byte_of(item))),
        None => None,
    }
}

/// Builds the record that stands for a request.
pub fn http_request_record(
    method: String,
    uri: String,
    headers: &Vec<(String, String)>,
    body: &Option<Vec<u8>>,
) -> (record: serde_json::Value)
    ensures
        json_model(record) == request_json(method@, uri@, header_views(headers@), body_view(*body)),
{
    let mut header_items: Vec<serde_json::Value> = Vec::new();
    let mut i: usize = 0;
    while i < headers.len()
        invariant
            i <= headers@.len(),
            header_items@.len() == i,
            forall|k: int|
                0 <= k < i ==> json_model(#[trigger] header_items@[k]) == header_json(
                    (headers@[k].0@, headers@[k].1@),
                ),
        decreases headers@.len() - i,
    {
        let mut pair: Vec<serde_json::Value> = Vec::new();
        pair.push(json_string(headers[i].0.clone()));
        pair.push(json_string(headers[i].1.clone()));
        let item = json_array(pair);
        assert(json_models(pair@) =~= seq![
            Json::String(headers@[i as int].0@),
            Json::String(headers@[i as int].1@),
        ]);
        header_items.push(item);
        i = i + 1;
    }
    let header_list = json_array(header_items);
    assert(json_models(header_items@) =~= header_views(headers@).map_values(
        |h: (Seq<char>, Seq<char>)| header_json(h),
    ));
    let mut header_fields: Vec<(String, serde_json::Value)> = Vec::new();
    header_fields.push((String::from_str("fields"), header_list));
    let headers_record = json_object(header_fields);
    proof {
        reveal_with_fuel(fields_model, 2);
    }
    let body_record = match body {
        Some(bytes) => {
            let mut items: Vec<serde_json::Value> = Vec::new();
            let mut j: usize = 0;
            while j < bytes.len()
                invariant
                    j <= bytes@.len(),
                    items@.len() == j,
                    forall|k: int|
                        0 <= k < j ==> json_model(#[trigger] items@[k]) == byte_json(bytes@[k]),
                decreases bytes@.len() - j,
            {
                items.push(json_number(bytes[j] as u64));
                j = j + 1;
            }
            assert(json_models(items@) =~= bytes@.map_values(|b: u8| byte_json(b)));
            json_array(items)
        },
        None => json_null(),
    };
    let mut fields: Vec<(String, serde_json::Value)> = Vec::new();
    fields.push((String::from_str("method"), json_string(method)));
    fields.push((String::from_str("uri"), json_string(uri)));
    fields.push((String::from_str("headers"), headers_record));
    fields.push((String::from_str("body"), body_record));
    proof {
        reveal_strlit("method");
        reveal_strlit("uri");
        reveal_strlit("headers");
        reveal_strlit("body");
        assert(fields@[0].0@.len() == 6 && fields@[1].0@.len() == 3);
        assert(fields@[2].0@.len() == 7 && fields@[3].0@.len() == 4);
    }
    let record = json_object(fields);
    proof {
        // The model of the four fields, unfolded from the last field on.
        reveal_with_fuel(fields_model, 5);
        let without_body = fields@.drop_last();
        let without_headers = without_body.drop_last();
        assert(without_headers.drop_last().drop_last().len() == 0);
    }
    record
}

/// Reads the headers among the items of `headers.fields`.
fn read_headers(items: &Vec<serde_json::Value>) -> (headers: Vec<(String, String)>)
    ensures
        header_views(headers@) == headers_among(json_models(items@)),
{
    let mut headers: Vec<(String, String)> = Vec::new();
    let mut i: usize = 0;
    while i < items.len()
        invariant
            i <= items@.len(),
            header_views(headers@) == headers_among(json_models(items@).take(i as int)),
        decreases items@.len() - i,
    {
        let ghost seen = json_models(items@).take(i as int);
        let ghost next = json_models(items@).take(i + 1);
        assert(next.drop_last() =~= seen);
        match json_as_array(&items[i]) {
            Some(pair) => {
                if pair.len() >= 2 {
                    let name = json_as_str(&pair[0]);
                    let value = json_as_str(&pair[1]);
                    match (name, value) {
                        (Some(n), Some(v)) => {
                            headers.push((String::from_str(n), String::from_str(v)));
                        },
                        _ => {},
                    }
                }
            },
            None => {},
        }
        i = i + 1;
    }
    assert(json_models(items@).take(i as int) =~= json_models(items@));
    headers
}

/// Reads the bytes of a body from the items of its array.
fn read_body(items: &Vec<serde_json::Value>) -> (bytes: Vec<u8>)
    ensures
        bytes@ == json_models(items@).map_values(|item: Json| byte_of(item)),
{
    let mut bytes: Vec<u8> = Vec::new();
    let mut i: usize = 0;
    while i < items.len()
        invariant
            i <= items@.len(),
            bytes@.len() == i,
            forall|k: int| 0 <= k < i ==> #[trigger] bytes@[k] == byte_of(json_model(items@[k])),
        decreases items@.len() - i,
    {
        let byte: u8 = match json_as_u64(&items[i]) {
            Some(n) => (n % 0x100) as u8,
            None => 0,
        };
        bytes.push(byte);
        i = i + 1;
    }
    bytes
}

/// Takes a response envelope apart: the status, headers and body of its
/// member `response`, and its member `state`. A member that is missing is
/// read as `null`.
pub fn http_response_from(envelope: &serde_json::Value) -> (r: (
    u16,
    Vec<(String, String)>,
    Option<Vec<u8>>,
    serde_json::Value,
))
    ensures
        r.0 == status_of(json_model(*envelope).member("response"@)),
        header_views(r.1@) == headers_of(json_model(*envelope).member("response"@)),
        body_view(r.2) == body_of(json_model(*envelope).member("response"@)),
        json_model(r.3) == json_model(*envelope).member("state"@),
{
    let new_state = json_clone(json_index(envelope, "state"));
    let response = json_index(envelope, "response");
    let status: u16 = match json_as_u64(json_index(response, "status")) {
        Some(n) => (n % 0x10000) as u16,
        None => DEFAULT_STATUS,
    };
    let headers = match json_as_array(json_index(json_index(response, "headers"), "fields")) {
        Some(items) => read_headers(items),
        None => Vec::new(),
    };
    let body = match json_as_array(json_index(response, "body")) {
        Some(items) => Some(read_body(items)),
        None => None,
    };
    (status, headers, body, new_state)
}

} // verus!
