use arnelify_server::addr_table::AddrTable;
use arnelify_server::clock::{generate_request_id, request_id_from};
use arnelify_server::commands::{
    decode_http, decode_ws, decode_wt, event_name, http_arity, message_arity, HttpCommand,
    HttpEvent, MessageCommand, MessageEvent, Protocol,
};
use arnelify_server::events::{
    close_wt, logger_args, logger_event, no_stream_report, open_stream, peer_address,
    request_event, route_http, route_ws, route_wt, ws_disconnect, ws_message,
};
use arnelify_server::json::{number_json, str_json, Json, JsonNumber};
use arnelify_server::lifecycle::{
    invalid_options_message, logger_socket_protocol, plan_create, plan_create_text, CreatePlan,
    ServerOpts,
};
use arnelify_server::parse::parse_options;
use arnelify_server::registry::{Instances, StreamTable};

fn obj(members: Vec<(&str, Json)>) -> Json {
    Json::Object(members.into_iter().map(|(k, v)| (k.to_string(), v)).collect())
}

fn strs(j: &Json) -> Vec<String> {
    match j {
        Json::Array(items) => items.iter().map(|i| i.as_str().cloned().unwrap_or_default()).collect(),
        _ => panic!("not a list"),
    }
}

fn ws_ctx(addr: &str) -> Json {
    obj(vec![("_state", obj(vec![("addr", str_json(addr))])), ("n", number_json(1))])
}

#[test]
fn event_names() {
    assert_eq!(event_name(Protocol::Http1, "add_header"), "http1_add_header");
    assert_eq!(event_name(Protocol::WebSocket, "push"), "ws_push");
    assert_eq!(logger_event(Protocol::Http3), "http3_logger");
    assert_eq!(request_event(Protocol::WebTransport), "wt_on");
    assert_eq!(request_event(Protocol::Http2), "http2_on");
}

#[test]
fn no_stream_reports() {
    let r = no_stream_report(Protocol::Http1, "set_headers");
    assert_eq!(strs(&r), vec!["error", "NEON error in uds_http1_set_headers: No stream found."]);
    let r = no_stream_report(Protocol::WebSocket, "close");
    assert_eq!(strs(&r), vec!["error", "NEON error in uds_ws_close: No stream found."]);
    assert_eq!(strs(&logger_args("info", "started")), vec!["info", "started"]);
}

#[test]
fn decode_http_commands() {
    let args = Json::Array(vec![number_json(9), str_json("Content-Type"), str_json("text/plain")]);
    assert_eq!(
        decode_http(HttpEvent::AddHeader, args),
        Some((9, HttpCommand::AddHeader { key: "Content-Type".into(), value: "text/plain".into() }))
    );
    let args = Json::Array(vec![str_json("nine"), Json::Null, number_json(3)]);
    assert_eq!(
        decode_http(HttpEvent::AddHeader, args),
        Some((0, HttpCommand::AddHeader { key: "".into(), value: "".into() }))
    );
    assert_eq!(decode_http(HttpEvent::End, Json::Array(vec![number_json(4)])), Some((4, HttpCommand::End)));
    assert_eq!(
        decode_http(HttpEvent::PushBytes, Json::Array(vec![number_json(4), number_json(2)])),
        Some((4, HttpCommand::PushBytes { is_attachment: true }))
    );
    assert_eq!(
        decode_http(HttpEvent::PushBytes, Json::Array(vec![number_json(4), Json::Bool(true)])),
        Some((4, HttpCommand::PushBytes { is_attachment: false }))
    );
    let args = Json::Array(vec![number_json(1), str_json("/a.txt"), number_json(0)]);
    assert_eq!(
        decode_http(HttpEvent::PushFile, args),
        Some((1, HttpCommand::PushFile { file_path: "/a.txt".into(), is_attachment: false }))
    );
    let payload = obj(vec![("ok", Json::Bool(true))]);
    let args = Json::Array(vec![number_json(1), obj(vec![("ok", Json::Bool(true))]), number_json(1)]);
    assert_eq!(
        decode_http(HttpEvent::PushJson, args),
        Some((1, HttpCommand::PushJson { json: payload, is_attachment: true }))
    );
    assert_eq!(
        decode_http(HttpEvent::SetCode, Json::Array(vec![number_json(2), number_json(404)])),
        Some((2, HttpCommand::SetCode { code: 404 }))
    );
    assert_eq!(
        decode_http(HttpEvent::SetCode, Json::Array(vec![number_json(2), number_json(65536 + 200)])),
        Some((2, HttpCommand::SetCode { code: 200 }))
    );
    assert_eq!(
        decode_http(HttpEvent::SetCompression, Json::Array(vec![number_json(2), str_json("br")])),
        Some((2, HttpCommand::SetCompression { compression: Some("br".into()) }))
    );
    assert_eq!(
        decode_http(HttpEvent::SetCompression, Json::Array(vec![number_json(2), str_json("")])),
        Some((2, HttpCommand::SetCompression { compression: None }))
    );
    assert_eq!(decode_http(HttpEvent::End, str_json("x")), None);
    assert_eq!(http_arity(HttpEvent::PushJson), 3);
    assert_eq!(http_arity(HttpEvent::SetHeaders), 1);
}

#[test]
fn decode_set_headers() {
    let headers = obj(vec![
        ("a", str_json("1")),
        ("b", Json::Number(JsonNumber { as_u64: None, text: "2.5".into() })),
        ("c", Json::Bool(false)),
        ("d", Json::Null),
        ("e", Json::Array(vec![])),
        ("f", number_json(7)),
    ]);
    let r = decode_http(HttpEvent::SetHeaders, Json::Array(vec![number_json(5), headers]));
    let expected: Vec<(String, String)> = vec![
        ("a".into(), "1".into()),
        ("b".into(), "2.5".into()),
        ("c".into(), "false".into()),
        ("f".into(), "7".into()),
    ];
    assert_eq!(r, Some((5, HttpCommand::SetHeaders { headers: expected })));
    let r = decode_http(HttpEvent::SetHeaders, Json::Array(vec![number_json(5)]));
    assert_eq!(r, Some((5, HttpCommand::SetHeaders { headers: vec![] })));
    let r = decode_http(HttpEvent::SetHeaders, Json::Array(vec![number_json(5), str_json("x")]));
    assert_eq!(r, Some((5, HttpCommand::SetHeaders { headers: vec![] })));
}

#[test]
fn decode_message_commands() {
    let r = decode_ws(MessageEvent::Push, Json::Array(vec![str_json("1.2.3.4:5"), number_json(8)]));
    assert_eq!(r, Some(("1.2.3.4:5".to_string(), MessageCommand::Push { json: number_json(8) })));
    let r = decode_ws(MessageEvent::Close, Json::Array(vec![number_json(3)]));
    assert_eq!(r, Some(("".to_string(), MessageCommand::Close)));
    let r = decode_wt(MessageEvent::SetCompression, Json::Array(vec![number_json(3), str_json("gzip")]));
    assert_eq!(r, Some((3, MessageCommand::SetCompression { compression: Some("gzip".into()) })));
    let r = decode_wt(MessageEvent::PushJson, Json::Array(vec![number_json(3), Json::Null]));
    assert_eq!(r, Some((3, MessageCommand::PushJson { json: Json::Null })));
    let r = decode_wt(MessageEvent::PushBytes, Json::Array(vec![number_json(6)]));
    assert_eq!(r, Some((6, MessageCommand::PushBytes)));
    assert_eq!(decode_wt(MessageEvent::Close, Json::Null), None);
    assert_eq!(message_arity(MessageEvent::Push), 2);
    assert_eq!(message_arity(MessageEvent::Close), 1);
}

#[test]
fn instances_hand_out_fresh_ids() {
    let mut inst: Instances<&str, u32> = Instances::new();
    let a = inst.next_id();
    inst.add_socket(a, "socket a");
    inst.add_server(a, 10);
    let b = inst.next_id();
    inst.add_socket(b, "socket b");
    assert_eq!((a, b), (1, 2));
    assert_eq!(inst.current_id(), 2);
    assert_eq!(inst.socket(a), Some(&"socket a"));
    assert_eq!(inst.server(a), Some(&10));
    assert_eq!(inst.server(b), None);
    inst.destroy(a);
    assert_eq!(inst.socket(a), None);
    assert_eq!(inst.server(a), None);
    assert_eq!(inst.socket(b), Some(&"socket b"));
    assert_eq!(inst.next_id(), 3);
}

#[test]
fn plan_create_takes_ids_in_order() {
    let mut inst: Instances<(), ()> = Instances::new();
    assert_eq!(plan_create(&mut inst, Protocol::Http1, None), CreatePlan::InvalidJson);
    assert_eq!(inst.current_id(), 0);
    match plan_create(&mut inst, Protocol::WebSocket, Some(obj(vec![]))) {
        CreatePlan::SocketFieldError { id, error } => {
            assert_eq!(id, 1);
            assert_eq!(error.key, "block_size_kb");
        },
        other => panic!("unexpected {:?}", other),
    }
    let opts = obj(vec![
        ("block_size_kb", number_json(64)),
        ("socket_path", str_json("/tmp/s")),
        ("thread_limit", number_json(2)),
    ]);
    match plan_create(&mut inst, Protocol::WebSocket, Some(opts)) {
        CreatePlan::ServerFieldError { id, socket, error } => {
            assert_eq!(id, 2);
            assert_eq!(socket.socket_path, "/tmp/s");
            assert_eq!(error.key, "compression");
        },
        other => panic!("unexpected {:?}", other),
    }
    let opts = obj(vec![
        ("block_size_kb", number_json(64)),
        ("socket_path", str_json("/tmp/s")),
        ("thread_limit", number_json(2)),
        ("compression", Json::Bool(false)),
        ("max_message_size_kb", number_json(64)),
        ("ping_timeout", number_json(15)),
        ("port", number_json(4433)),
        ("rate_limit", number_json(5)),
        ("read_timeout", number_json(30)),
        ("send_timeout", number_json(30)),
    ]);
    match plan_create(&mut inst, Protocol::WebSocket, Some(opts)) {
        CreatePlan::Ready { id, socket, server: ServerOpts::WebSocket(ws) } => {
            assert_eq!(id, 3);
            assert_eq!(socket.thread_limit, 2);
            assert_eq!(ws.port, 4433);
            assert_eq!(ws.thread_limit, 2);
        },
        other => panic!("unexpected {:?}", other),
    }
    assert_eq!(
        invalid_options_message(Protocol::Http2),
        "[Arnelify Server]: NEON error in http2_create: Invalid JSON in 'c_opts'."
    );
    assert_eq!(logger_socket_protocol(Protocol::WebTransport), Protocol::WebTransport);
    assert_eq!(logger_socket_protocol(Protocol::Http2), Protocol::Http2);
}

#[test]
fn stream_table_register_route_remove() {
    let mut t: StreamTable<&str> = StreamTable::new();
    let (id1, args) = open_stream(&mut t, "/", str_json("ctx"), "s1");
    let (id2, _) = open_stream(&mut t, "/x", Json::Null, "s2");
    assert_eq!((id1, id2), (1, 2));
    match &args {
        Json::Array(items) => {
            assert_eq!(items.len(), 3);
            assert_eq!(items[0], number_json(1));
            assert_eq!(items[1], str_json("/"));
            assert_eq!(items[2], str_json("ctx"));
        },
        _ => panic!("not a list"),
    }
    assert_eq!(route_http(&t, Protocol::Http1, HttpEvent::End, 2), Ok(&"s2"));
    let err = route_http(&t, Protocol::Http3, HttpEvent::PushFile, 7).unwrap_err();
    assert_eq!(strs(&err), vec!["error", "NEON error in uds_http3_push_file: No stream found."]);
    assert_eq!(t.remove(1), Some("s1"));
    assert_eq!(t.remove(1), None);
    assert_eq!(t.get(1), None);
    assert_eq!(route_wt(&t, MessageEvent::Push, 2), Ok(&"s2"));
    assert_eq!(close_wt(&mut t, 2), Ok("s2"));
    let err = close_wt(&mut t, 2).unwrap_err();
    assert_eq!(strs(&err), vec!["error", "NEON error in uds_wt_close: No stream found."]);
}

#[test]
fn websocket_messages_file_and_forget_peers() {
    let mut t: AddrTable<u32> = AddrTable::new();
    assert_eq!(peer_address(&ws_ctx("10.0.0.1:80")), Some("10.0.0.1:80".to_string()));
    assert_eq!(peer_address(&obj(vec![("_state", Json::Null)])), None);
    let args = ws_message(&mut t, "chat", ws_ctx("10.0.0.1:80"), 1).unwrap();
    match &args {
        Json::Array(items) => {
            assert_eq!(items[0], str_json("10.0.0.1:80"));
            assert_eq!(items[1], str_json("chat"));
            assert_eq!(items[2], ws_ctx("10.0.0.1:80"));
        },
        _ => panic!("not a list"),
    }
    assert!(ws_message(&mut t, "chat", ws_ctx("10.0.0.2:80"), 2).is_some());
    assert!(ws_message(&mut t, "chat", ws_ctx("10.0.0.1:80"), 3).is_some());
    assert_eq!(t.get("10.0.0.1:80"), Some(&3));
    assert_eq!(route_ws(&t, MessageEvent::PushBytes, "10.0.0.2:80"), Ok(&2));
    assert_eq!(ws_message(&mut t, "chat", obj(vec![]), 4), None);
    assert_eq!(ws_message(&mut t, "_disconnect", ws_ctx("10.0.0.1:80"), 5), None);
    assert_eq!(t.get("10.0.0.1:80"), None);
    let err = route_ws(&t, MessageEvent::SetCompression, "10.0.0.1:80").unwrap_err();
    assert_eq!(strs(&err), vec!["error", "NEON error in uds_ws_set_compression: No stream found."]);
    ws_disconnect(&mut t, &ws_ctx("10.0.0.2:80"));
    assert_eq!(t.get("10.0.0.2:80"), None);
    assert_eq!(t.remove("10.0.0.2:80"), None);
}

#[test]
fn request_ids_come_from_the_clock() {
    let a = generate_request_id().unwrap();
    let b = generate_request_id().unwrap();
    assert!(a > 0);
    assert!(b > 0);
    assert!(a < (u64::MAX as u128 + 1) * 1_000_000_000);
}

#[test]
fn request_id_counts_nanoseconds() {
    assert_eq!(request_id_from(Some((0, 0))), Some(0));
    assert_eq!(request_id_from(Some((1, 5))), Some(1_000_000_005));
    assert_eq!(request_id_from(Some((1_700_000_000, 999_999_999))), Some(1_700_000_000_999_999_999));
    assert_eq!(
        request_id_from(Some((u64::MAX, 999_999_999))),
        Some(u64::MAX as u128 * 1_000_000_000 + 999_999_999)
    );
    assert_eq!(request_id_from(None), None);
}

#[test]
fn options_text_is_parsed() {
    let j = parse_options(r#"{"b": true, "a": [1, "x", null, 2.5], "n": 18446744073709551615}"#).unwrap();
    assert_eq!(j.get("b").and_then(|v| v.as_bool()), Some(true));
    assert_eq!(j.get("n").and_then(|v| v.as_u64()), Some(u64::MAX));
    match j.get("a") {
        Some(Json::Array(items)) => {
            assert_eq!(items[0], number_json(1));
            assert_eq!(items[1], str_json("x"));
            assert_eq!(items[2], Json::Null);
            assert_eq!(items[3], Json::Number(JsonNumber { as_u64: None, text: "2.5".into() }));
        },
        other => panic!("unexpected {:?}", other),
    }
    match &j {
        Json::Object(members) => {
            let keys: Vec<&str> = members.iter().map(|(k, _)| k.as_str()).collect();
            assert_eq!(keys, vec!["a", "b", "n"]);
        },
        _ => panic!("not an object"),
    }
    assert_eq!(parse_options("{not json"), None);
    assert_eq!(parse_options(""), None);
}

#[test]
fn plan_create_from_text() {
    let mut inst: Instances<(), ()> = Instances::new();
    assert_eq!(plan_create_text(&mut inst, Protocol::Http3, "nope"), CreatePlan::InvalidJson);
    assert_eq!(inst.current_id(), 0);
    let text = r#"{"block_size_kb": 64, "socket_path": "/tmp/h3", "thread_limit": 70000}"#;
    match plan_create_text(&mut inst, Protocol::Http3, text) {
        CreatePlan::ServerFieldError { id, socket, error } => {
            assert_eq!(id, 1);
            assert_eq!(socket.thread_limit, 70000);
            assert_eq!(error.key, "allow_empty_files");
        },
        other => panic!("unexpected {:?}", other),
    }
}
