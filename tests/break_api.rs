use serde_json::Value;
use zap_break::{
    add_http_breakpoint, brk, build_call, classify_reply, cont, decode_call, drop, encode_query,
    endpoint_path, find_operation, http_message, interpret_response, is_break_all,
    is_break_request, is_break_response, param_value, remove_http_breakpoint,
    set_http_message, step, ApiCall, ApiError, Operation, RawResponse,
};

fn s(t: &str) -> String {
    t.to_string()
}

fn pairs(call: &ApiCall) -> Vec<(&str, &str)> {
    call.params.iter().map(|(k, v)| (k.as_str(), v.as_str())).collect()
}

fn triad(call: &ApiCall) -> (&str, &str, &str) {
    (call.component.as_str(), call.category.as_str(), call.name.as_str())
}

fn json(text: &str) -> Value {
    serde_json::from_str(text).unwrap()
}

#[test]
fn global_break_mode_scenario() {
    let call = brk(s("http-all"), s("true"), s(""));
    assert_eq!(triad(&call), ("break", "action", "break"));
    assert_eq!(pairs(&call), vec![("type", "http-all"), ("state", "true"), ("scope", "")]);
}

#[test]
fn add_breakpoint_scenario() {
    let call = add_http_breakpoint(s("foo"), s("url"), s("contains"), s("false"), s("true"));
    assert_eq!(triad(&call), ("break", "action", "addHttpBreakpoint"));
    assert_eq!(
        pairs(&call),
        vec![
            ("string", "foo"),
            ("location", "url"),
            ("match", "contains"),
            ("inverse", "false"),
            ("ignorecase", "true"),
        ]
    );
}

#[test]
fn query_break_on_all_scenario() {
    let call = is_break_all();
    assert_eq!(triad(&call), ("break", "view", "isBreakAll"));
    assert!(call.params.is_empty());
    let reply = RawResponse { status: 200, body: s("{\"isBreakAll\":\"true\"}") };
    match interpret_response(Ok(reply)) {
        Ok(v) => assert_eq!(v, json("{\"isBreakAll\":\"true\"}")),
        Err(_) => panic!("a successful reply must give its value"),
    }
}

#[test]
fn zero_argument_operations_send_no_parameters() {
    let calls = vec![
        (is_break_all(), "view", "isBreakAll"),
        (is_break_request(), "view", "isBreakRequest"),
        (is_break_response(), "view", "isBreakResponse"),
        (http_message(), "view", "httpMessage"),
        (cont(), "action", "continue"),
        (step(), "action", "step"),
        (drop(), "action", "drop"),
    ];
    for (call, category, name) in calls {
        assert_eq!(triad(&call), ("break", category, name));
        assert!(call.params.is_empty());
    }
}

#[test]
fn set_http_message_parameters() {
    let call = set_http_message(s("GET / HTTP/1.1"), s("body"));
    assert_eq!(triad(&call), ("break", "action", "setHttpMessage"));
    assert_eq!(pairs(&call), vec![("httpHeader", "GET / HTTP/1.1"), ("httpBody", "body")]);
}

#[test]
fn remove_breakpoint_parameters() {
    let call = remove_http_breakpoint(s("a"), s("request_body"), s("regex"), s("true"), s("false"));
    assert_eq!(triad(&call), ("break", "action", "removeHttpBreakpoint"));
    assert_eq!(
        pairs(&call),
        vec![
            ("string", "a"),
            ("location", "request_body"),
            ("match", "regex"),
            ("inverse", "true"),
            ("ignorecase", "false"),
        ]
    );
}

#[test]
fn every_call_reads_back_as_built() {
    let built = vec![
        (is_break_all(), Operation::IsBreakAll, vec![]),
        (is_break_request(), Operation::IsBreakRequest, vec![]),
        (is_break_response(), Operation::IsBreakResponse, vec![]),
        (http_message(), Operation::HttpMessage, vec![]),
        (brk(s("http-request"), s("false"), s("x")), Operation::Break, vec!["http-request", "false", "x"]),
        (set_http_message(s("h"), s("b")), Operation::SetHttpMessage, vec!["h", "b"]),
        (cont(), Operation::Continue, vec![]),
        (step(), Operation::Step, vec![]),
        (drop(), Operation::Drop, vec![]),
        (
            add_http_breakpoint(s("1"), s("2"), s("3"), s("4"), s("5")),
            Operation::AddHttpBreakpoint,
            vec!["1", "2", "3", "4", "5"],
        ),
        (
            remove_http_breakpoint(s("5"), s("4"), s("3"), s("2"), s("1")),
            Operation::RemoveHttpBreakpoint,
            vec!["5", "4", "3", "2", "1"],
        ),
    ];
    for (call, op, args) in built {
        let (found, values) = decode_call(&call).unwrap();
        assert_eq!(found, op);
        assert_eq!(values, args.iter().map(|a| s(a)).collect::<Vec<String>>());
    }
}

#[test]
fn read_back_ignores_parameter_order() {
    let mut call = brk(s("http-all"), s("true"), s(""));
    call.params.reverse();
    let (op, values) = decode_call(&call).unwrap();
    assert_eq!(op, Operation::Break);
    assert_eq!(values, vec![s("http-all"), s("true"), s("")]);
}

#[test]
fn read_back_refuses_foreign_requests() {
    let mut other_component = is_break_all();
    other_component.component = s("core");
    assert!(decode_call(&other_component).is_none());

    let mut wrong_category = step();
    wrong_category.category = s("view");
    assert!(decode_call(&wrong_category).is_none());

    let mut missing = brk(s("a"), s("b"), s("c"));
    missing.params.pop();
    assert!(decode_call(&missing).is_none());

    let mut renamed = set_http_message(s("h"), s("b"));
    renamed.params[1].0 = s("body");
    assert!(decode_call(&renamed).is_none());

    let mut extra = cont();
    extra.params.push((s("type"), s("x")));
    assert!(decode_call(&extra).is_none());
}

#[test]
fn find_operation_by_category_and_name() {
    assert_eq!(find_operation(&s("view"), &s("httpMessage")), Some(Operation::HttpMessage));
    assert_eq!(find_operation(&s("action"), &s("continue")), Some(Operation::Continue));
    assert_eq!(find_operation(&s("action"), &s("httpMessage")), None);
    assert_eq!(find_operation(&s("view"), &s("")), None);
}

#[test]
fn param_value_takes_first_pair_with_key() {
    let params = vec![(s("a"), s("1")), (s("b"), s("2")), (s("a"), s("3"))];
    assert_eq!(param_value(&params, &s("a")), Some(s("1")));
    assert_eq!(param_value(&params, &s("b")), Some(s("2")));
    assert_eq!(param_value(&params, &s("c")), None);
}

#[test]
fn build_call_places_arguments_by_position() {
    let call = build_call(Operation::Break, vec![s("x"), s("y"), s("z")]);
    assert_eq!(pairs(&call), vec![("type", "x"), ("state", "y"), ("scope", "z")]);
    assert_eq!(Operation::AddHttpBreakpoint.keys().len(), 5);
    assert_eq!(Operation::Drop.category(), "action");
    assert_eq!(Operation::IsBreakResponse.remote_name(), "isBreakResponse");
}

#[test]
fn endpoint_paths() {
    assert_eq!(endpoint_path(&is_break_all()), "/view/break/isBreakAll/");
    assert_eq!(endpoint_path(&brk(s("a"), s("b"), s("c"))), "/action/break/break/");
}

#[test]
fn transport_error_is_returned_unchanged() {
    match interpret_response(Err(ApiError::Transport(s("connection refused")))) {
        Err(ApiError::Transport(t)) => assert_eq!(t, "connection refused"),
        _ => panic!("a transport error must come back as it is"),
    }
}

#[test]
fn failure_status_is_api_error() {
    let reply = RawResponse {
        status: 400,
        body: s("{\"code\":\"bad_view\",\"message\":\"Bad View\"}"),
    };
    match interpret_response(Ok(reply)) {
        Err(ApiError::Api { status, code, message }) => {
            assert_eq!(status, 400);
            assert_eq!(code, "bad_view");
            assert_eq!(message, "Bad View");
        }
        _ => panic!("a failure status must be an API error"),
    }
    match interpret_response(Ok(RawResponse { status: 502, body: s("gateway") })) {
        Err(ApiError::Api { status, code, message }) => {
            assert_eq!(status, 502);
            assert_eq!(code, "");
            assert_eq!(message, "");
        }
        _ => panic!("a failure status must be an API error"),
    }
}

#[test]
fn error_payload_is_api_error() {
    let reply = RawResponse {
        status: 200,
        body: s("{\"code\":\"missing_parameter\",\"message\":\"Missing Parameter\"}"),
    };
    match interpret_response(Ok(reply)) {
        Err(ApiError::Api { status, code, message }) => {
            assert_eq!(status, 200);
            assert_eq!(code, "missing_parameter");
            assert_eq!(message, "Missing Parameter");
        }
        _ => panic!("an error payload must be an API error"),
    }
}

#[test]
fn undecodable_body_is_decode_error() {
    match interpret_response(Ok(RawResponse { status: 200, body: s("<html>") })) {
        Err(ApiError::Decode(d)) => assert!(!d.is_empty()),
        _ => panic!("a body that is not JSON must be a decode error"),
    }
}

#[test]
fn classify_reply_cases() {
    let v = json("{\"Result\":\"OK\"}");
    match classify_reply(200, Ok(v.clone()), None, None) {
        Ok(r) => assert_eq!(r, v),
        Err(_) => panic!("success expected"),
    }
    match classify_reply(299, Ok(v.clone()), Some(s("c")), None) {
        Err(ApiError::Api { status, code, message }) => {
            assert_eq!((status, code.as_str(), message.as_str()), (299, "c", ""));
        }
        _ => panic!("API error expected"),
    }
    match classify_reply(204, Err(s("eof")), None, None) {
        Err(ApiError::Decode(d)) => assert_eq!(d, "eof"),
        _ => panic!("decode error expected"),
    }
    match classify_reply(199, Ok(v.clone()), None, Some(s("m"))) {
        Err(ApiError::Api { status, code, message }) => {
            assert_eq!((status, code.as_str(), message.as_str()), (199, "", "m"));
        }
        _ => panic!("API error expected"),
    }
    match classify_reply(300, Err(s("eof")), None, None) {
        Err(ApiError::Api { status, .. }) => assert_eq!(status, 300),
        _ => panic!("API error expected"),
    }
}

#[test]
fn query_joins_encoded_pairs() {
    let call = brk(s("http-all"), s("true"), s(""));
    assert_eq!(encode_query(&call.params), b"type=http-all&state=true&scope=".to_vec());
    assert_eq!(encode_query(&is_break_all().params), Vec::<u8>::new());
}

#[test]
fn query_escapes_reserved_and_non_ascii_bytes() {
    let call = add_http_breakpoint(s("a b/\u{e9}"), s("url"), s("regex"), s("x&y=z"), s("-._~"));
    assert_eq!(
        String::from_utf8(encode_query(&call.params)).unwrap(),
        "string=a%20b%2F%C3%A9&location=url&match=regex&inverse=x%26y%3Dz&ignorecase=-._~"
    );
}

#[test]
fn error_payload_without_message_has_empty_message() {
    let reply = RawResponse { status: 200, body: s("{\"code\":\"no_implementor\",\"detail\":1}") };
    match interpret_response(Ok(reply)) {
        Err(ApiError::Api { status, code, message }) => {
            assert_eq!((status, code.as_str(), message.as_str()), (200, "no_implementor", ""));
        }
        _ => panic!("an error payload must be an API error"),
    }
    let reply = RawResponse { status: 200, body: s("{\"code\":7,\"Result\":\"OK\"}") };
    match interpret_response(Ok(reply)) {
        Ok(v) => assert_eq!(v, json("{\"code\":7,\"Result\":\"OK\"}")),
        Err(_) => panic!("a code that is not a string is no error payload"),
    }
}
