use translate_client::{
    settle, wait_operation, Error, Json, Method, Operation, PollAction, Status, WAIT_TIMEOUT,
};

fn op(done: Option<bool>, error: Option<Status>, response: Option<Json>) -> Operation {
    Operation {
        name: "projects/p/locations/l/operations/op1".to_string(),
        metadata: Json::Null,
        done,
        error,
        response,
    }
}

fn status(code: i32, message: &str) -> Status {
    Status { code, message: message.to_string(), details: None }
}

#[test]
fn it_works() {
    assert_eq!(2 + 2, 4);
}

#[test]
fn done_with_response_yields_it_even_beside_an_error() {
    let r = settle(op(Some(true), Some(status(3, "bad")), Some(Json::Str("ok".to_string()))));
    match r {
        Some(Ok(Ok(Json::Str(s)))) => assert_eq!(s, "ok"),
        other => panic!("unexpected {:?}", other),
    }
}

#[test]
fn done_with_error_only_yields_the_status() {
    let r = settle(op(Some(true), Some(status(5, "not found")), None));
    match r {
        Some(Ok(Err(s))) => {
            assert_eq!(s.code, 5);
            assert_eq!(s.message, "not found");
        },
        other => panic!("unexpected {:?}", other),
    }
}

#[test]
fn done_with_neither_is_a_protocol_violation() {
    let r = settle(op(Some(true), None, None));
    assert!(matches!(r, Some(Err(Error::Other(_)))));
}

#[test]
fn not_done_keeps_polling() {
    assert!(settle(op(None, None, None)).is_none());
    assert!(settle(op(Some(false), None, Some(Json::Null))).is_none());
}

#[test]
fn wait_call_shape() {
    let c = wait_operation("projects/p/locations/l/operations/op1", " tok ");
    assert_eq!(c.method, Method::Post);
    assert_eq!(c.url, "https://translation.googleapis.com/v3beta1/projects/p/locations/l/operations/op1:wait");
    assert_eq!(c.authorization, "Bearer tok");
    assert!(c.json_content_type);
    assert!(c.expects_body);
    match c.body {
        Some(Json::Object(fields)) => {
            assert_eq!(fields.len(), 1);
            assert_eq!(fields[0].0, "timeout");
            assert!(matches!(&fields[0].1, Json::Str(t) if t == WAIT_TIMEOUT && t == "1s"));
        },
        other => panic!("unexpected {:?}", other),
    }
}

#[test]
fn three_pending_then_done_takes_four_calls() {
    let start = op(None, None, None);
    let (mut poll, first) = start.wait_util_done("tok");
    let mut calls = 1;
    assert!(first.url.ends_with(":wait"));
    let replies = vec![
        op(Some(false), None, None),
        op(None, None, None),
        op(Some(false), None, None),
        op(Some(true), None, Some(Json::UInt(7))),
    ];
    let mut outcome = None;
    for reply in replies {
        assert!(!poll.finished);
        match poll.on_reply(Ok(reply)) {
            PollAction::Wait(call) => {
                assert!(call.url.ends_with("op1:wait"));
                calls += 1;
            },
            PollAction::Finished(r) => outcome = Some(r),
            PollAction::Failed(e) => panic!("unexpected {:?}", e),
        }
    }
    assert_eq!(calls, 4);
    assert!(poll.finished);
    assert!(matches!(outcome, Some(Ok(Json::UInt(7)))));
}

#[test]
fn transport_failure_stops_the_poll() {
    let (mut poll, _) = op(None, None, None).wait_util_done("tok");
    let action = poll.on_reply(Err(Error::HyperError("connection reset".to_string())));
    assert!(matches!(action, PollAction::Failed(Error::HyperError(_))));
    assert!(poll.finished);
}

#[test]
fn terminal_failure_is_an_outcome() {
    let (mut poll, _) = op(None, None, None).wait_util_done("tok");
    let action = poll.on_reply(Ok(op(Some(true), Some(status(13, "internal")), None)));
    match action {
        PollAction::Finished(Err(s)) => assert_eq!(s.code, 13),
        other => panic!("unexpected {:?}", other),
    }
}

#[test]
fn terminal_without_payload_fails_the_poll() {
    let (mut poll, _) = op(None, None, None).wait_util_done("tok");
    let action = poll.on_reply(Ok(op(Some(true), None, None)));
    match action {
        PollAction::Failed(Error::Other(m)) => assert_eq!(
            m,
            "wait_operation should return one of response or error: projects/p/locations/l/operations/op1"
        ),
        other => panic!("unexpected {:?}", other),
    }
    assert!(poll.finished);
}
