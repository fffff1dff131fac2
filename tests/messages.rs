use ast_core::messages::{Id, Message, MethodCall, Notification, Request, Result, Version};

#[test]
fn request_message_carries_version_id_and_call() {
    let message = Message::new_request(Id(50), "mockMethod", 124i64);
    assert!(matches!(message.jsonrpc, Version::V2));
    assert_eq!(message.payload.id.0, 50);
    assert_eq!(message.payload.call.method, "mockMethod");
    assert_eq!(message.payload.call.input, 124);
}

#[test]
fn notification_message_carries_call() {
    let call = MethodCall { method: "mockNotification".to_string(), input: 125i64 };
    let message = Message::new(Notification(call));
    assert_eq!(message.jsonrpc.name(), "2.0");
    assert_eq!(message.payload.0.method, "mockNotification");
    let built = Message::new_notification("mockNotification", 125i64);
    assert_eq!(built.payload.0.input, 125);
}

#[test]
fn responses_hold_success_or_error() {
    let ok = Message::new_success(Id(0), true);
    assert_eq!(ok.payload.id.0, 0);
    assert!(matches!(ok.payload.result, Result::Success(s) if s.result));
    let failed = Message::<bool>::new_error(Id(3), -32601, "no such method".to_string(), None);
    match failed.payload.result {
        Result::Error(e) => {
            assert_eq!(e.code, -32601);
            assert_eq!(e.message, "no such method");
            assert!(e.data.is_none());
        },
        Result::Success(_) => panic!("expected an error"),
    }
}

#[test]
fn version_names() {
    assert_eq!(Version::V1.name(), "1.0");
    assert_eq!(Version::V2.name(), "2.0");
    let request = Request::new(Id(7), ());
    assert_eq!(request.id.0, 7);
}
