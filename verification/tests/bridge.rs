use runtime_v2::http::{admit_request, enqueue_status, method_status, HttpHandler};
use runtime_v2::runtime::ActorMessage;

#[test]
fn non_post_request_is_refused_with_405_and_gives_no_message() {
    for method in ["GET", "PUT", "DELETE", "PATCH", "HEAD", "OPTIONS", "post", ""] {
        let decision = admit_request(method, br#"{"op":"inc"}"#);
        match decision {
            Err(status) => assert_eq!(status, 405),
            Ok(_) => panic!("a message was made for {method}"),
        }
        assert_eq!(method_status(method), Some(405));
    }
}

#[test]
fn post_with_structured_body_is_forwarded_without_reply_slot() {
    let decision = admit_request("POST", br#"{"op":"inc"}"#);
    match decision {
        Ok(ActorMessage::Regular { content, response }) => {
            assert_eq!(content.to_string(), r#"{"op":"inc"}"#);
            assert!(response.is_none());
        }
        _ => panic!("the request was not forwarded"),
    }
    assert_eq!(method_status("POST"), None);
}

#[test]
fn post_with_malformed_body_is_refused_with_422() {
    match admit_request("POST", b"{not json") {
        Err(status) => assert_eq!(status, 422),
        Ok(_) => panic!("a message was made"),
    }
}

#[test]
fn enqueue_outcome_decides_between_200_and_500() {
    assert_eq!(enqueue_status(true), 200);
    assert_eq!(enqueue_status(false), 500);
}

#[test]
fn handler_keeps_its_port_and_name() {
    let handler = HttpHandler::new(8080);
    assert_eq!(handler.port(), 8080);
    assert_eq!(handler.name(), "http");
}
