use arnelify_server::config::{http1_opts, http2_opts, http3_opts, uds_opts, ws_opts, wt_opts};
use arnelify_server::json::{decimal_string, number_json, str_json, Json, JsonNumber};
use arnelify_server::options::{
    check_field, check_fields, get_bool, get_str, get_u16, get_u32, get_u64, get_u8, get_usize,
    FieldError, FieldKind, FieldProblem, FieldSpec,
};

fn obj(members: Vec<(&str, Json)>) -> Json {
    Json::Object(members.into_iter().map(|(k, v)| (k.to_string(), v)).collect())
}

fn float(text: &str) -> Json {
    Json::Number(JsonNumber { as_u64: None, text: text.to_string() })
}

fn http1_options() -> Vec<(&'static str, Json)> {
    vec![
        ("allow_empty_files", Json::Bool(true)),
        ("block_size_kb", number_json(64)),
        ("charset", str_json("utf-8")),
        ("compression", Json::Bool(true)),
        ("keep_alive", number_json(30)),
        ("keep_extensions", Json::Bool(true)),
        ("max_fields", number_json(60)),
        ("max_fields_size_total_mb", number_json(1)),
        ("max_files", number_json(3)),
        ("max_files_size_total_mb", number_json(60)),
        ("max_file_size_mb", number_json(60)),
        ("port", number_json(4433)),
        ("storage_path", str_json("/var/www/node/storage")),
        ("thread_limit", number_json(4)),
        ("socket_path", str_json("/tmp/http1.sock")),
    ]
}

#[test]
fn object_lookup_finds_first_member() {
    let o = obj(vec![("a", number_json(1)), ("b", Json::Bool(false)), ("a", number_json(2))]);
    assert_eq!(o.get("a").and_then(|v| v.as_u64()), Some(1));
    assert_eq!(o.get("b").and_then(|v| v.as_bool()), Some(false));
    assert!(o.get("c").is_none());
    assert!(Json::Array(vec![]).get("a").is_none());
    assert!(str_json("a").get("a").is_none());
}

#[test]
fn accessors_read_only_their_type() {
    assert_eq!(number_json(5).as_u64(), Some(5));
    assert_eq!(float("1.5").as_u64(), None);
    assert_eq!(str_json("x").as_u64(), None);
    assert_eq!(str_json("x").as_str().map(|s| s.as_str()), Some("x"));
    assert_eq!(Json::Bool(true).as_str(), None);
    assert_eq!(Json::Bool(true).as_bool(), Some(true));
    assert_eq!(Json::Null.as_bool(), None);
}

#[test]
fn decimal_text_of_numbers() {
    assert_eq!(decimal_string(0), "0");
    assert_eq!(decimal_string(7), "7");
    assert_eq!(decimal_string(10), "10");
    assert_eq!(decimal_string(205), "205");
    assert_eq!(decimal_string(u64::MAX), "18446744073709551615");
    match number_json(42) {
        Json::Number(n) => {
            assert_eq!(n.as_u64, Some(42));
            assert_eq!(n.text, "42");
        },
        _ => panic!("not a number"),
    }
}

#[test]
fn getters_read_fields() {
    let o = obj(vec![
        ("s", str_json("text")),
        ("n", number_json(255)),
        ("big", number_json(70000)),
        ("b", Json::Bool(true)),
    ]);
    assert_eq!(get_str(&o, "s"), "text");
    assert_eq!(get_u64(&o, "big"), 70000);
    assert_eq!(get_usize(&o, "big"), 70000);
    assert_eq!(get_u32(&o, "big"), 70000);
    assert_eq!(get_u16(&o, "n"), 255);
    assert_eq!(get_u8(&o, "n"), 255);
    assert!(get_bool(&o, "b"));
}

#[test]
fn check_field_reports_each_problem() {
    let o = obj(vec![
        ("s", str_json("text")),
        ("n", number_json(256)),
        ("b", Json::Bool(false)),
        ("f", float("2.5")),
    ]);
    let spec = |key: &'static str, kind: FieldKind| FieldSpec { key, kind };
    assert_eq!(check_field(&o, spec("s", FieldKind::Str)), None);
    assert_eq!(check_field(&o, spec("n", FieldKind::Str)), Some(FieldProblem::Missing));
    assert_eq!(check_field(&o, spec("n", FieldKind::U16)), None);
    assert_eq!(check_field(&o, spec("n", FieldKind::U8)), Some(FieldProblem::OutOfRange));
    assert_eq!(check_field(&o, spec("f", FieldKind::U64)), Some(FieldProblem::Missing));
    assert_eq!(check_field(&o, spec("b", FieldKind::Bool)), None);
    assert_eq!(check_field(&o, spec("x", FieldKind::Bool)), Some(FieldProblem::Missing));
    assert_eq!(check_field(&o, spec("s", FieldKind::Usize)), Some(FieldProblem::Missing));
}

#[test]
fn check_fields_reports_first_failure() {
    let o = obj(vec![("a", number_json(300)), ("b", str_json("x"))]);
    let fields = vec![
        FieldSpec { key: "b", kind: FieldKind::Str },
        FieldSpec { key: "c", kind: FieldKind::Bool },
        FieldSpec { key: "a", kind: FieldKind::U8 },
    ];
    let e = check_fields(&o, &fields).unwrap_err();
    assert_eq!(e.key, "c");
    assert_eq!(e.kind, FieldKind::Bool);
    assert_eq!(e.problem, FieldProblem::Missing);
    let fields = vec![FieldSpec { key: "b", kind: FieldKind::Str }, FieldSpec { key: "a", kind: FieldKind::U8 }];
    let e = check_fields(&o, &fields).unwrap_err();
    assert_eq!(e.key, "a");
    assert_eq!(e.problem, FieldProblem::OutOfRange);
    assert!(check_fields(&o, &vec![FieldSpec { key: "a", kind: FieldKind::U16 }]).is_ok());
}

#[test]
fn field_error_messages() {
    let e = |key: &str, kind, problem| FieldError { key: key.to_string(), kind, problem };
    assert_eq!(
        e("charset", FieldKind::Str, FieldProblem::Missing).message(),
        "[Arnelify Server]: NEON error: 'charset' missing or not a string."
    );
    assert_eq!(
        e("port", FieldKind::U16, FieldProblem::Missing).message(),
        "[Arnelify Server]: NEON error: 'port' missing or not a u64."
    );
    assert_eq!(
        e("port", FieldKind::U16, FieldProblem::OutOfRange).message(),
        "[Arnelify Server]: NEON error: 'port' out of u16 range."
    );
    assert_eq!(
        e("block_size_kb", FieldKind::Usize, FieldProblem::OutOfRange).message(),
        "[Arnelify Server]: NEON error: 'block_size_kb' out of usize range."
    );
    assert_eq!(
        e("keep_alive", FieldKind::U8, FieldProblem::OutOfRange).message(),
        "[Arnelify Server]: NEON error: 'keep_alive' out of u8 range."
    );
    assert_eq!(
        e("max_files", FieldKind::U32, FieldProblem::OutOfRange).message(),
        "[Arnelify Server]: NEON error: 'max_files' out of u32 range."
    );
    assert_eq!(
        e("compression", FieldKind::Bool, FieldProblem::Missing).message(),
        "[Arnelify Server]: NEON error: 'compression' missing or not a bool."
    );
}

#[test]
fn http1_options_are_read() {
    let o = obj(http1_options());
    let h = http1_opts(&o).unwrap();
    assert!(h.allow_empty_files);
    assert_eq!(h.block_size_kb, 64);
    assert_eq!(h.charset, "utf-8");
    assert!(h.compression);
    assert_eq!(h.keep_alive, 30);
    assert!(h.keep_extensions);
    assert_eq!(h.max_fields, 60);
    assert_eq!(h.max_fields_size_total_mb, 1);
    assert_eq!(h.max_files, 3);
    assert_eq!(h.max_files_size_total_mb, 60);
    assert_eq!(h.max_file_size_mb, 60);
    assert_eq!(h.port, 4433);
    assert_eq!(h.storage_path, "/var/www/node/storage");
    assert_eq!(h.thread_limit, 4);
    let u = uds_opts(&o).unwrap();
    assert_eq!(u.block_size_kb, 64);
    assert_eq!(u.socket_path, "/tmp/http1.sock");
    assert_eq!(u.thread_limit, 4);
}

#[test]
fn http1_options_report_first_bad_field() {
    let mut members = http1_options();
    members.retain(|(k, _)| *k != "charset" && *k != "storage_path");
    members.push(("keep_alive", number_json(300)));
    let o = obj(members);
    // keep_alive is found first (30), so charset is the first field in error
    let e = http1_opts(&o).unwrap_err();
    assert_eq!(e.key, "charset");
    assert_eq!(e.message(), "[Arnelify Server]: NEON error: 'charset' missing or not a string.");

    let mut members = http1_options();
    for m in members.iter_mut() {
        if m.0 == "port" {
            m.1 = number_json(70000);
        }
    }
    let e = http1_opts(&obj(members)).unwrap_err();
    assert_eq!(e.message(), "[Arnelify Server]: NEON error: 'port' out of u16 range.");
}

#[test]
fn tls_and_message_server_options_are_read() {
    let mut members = http1_options();
    members.push(("cert_pem", str_json("certs/cert.pem")));
    members.push(("key_pem", str_json("certs/key.pem")));
    members.push(("max_message_size_kb", number_json(64)));
    members.push(("ping_timeout", number_json(15)));
    members.push(("rate_limit", number_json(5)));
    members.push(("read_timeout", number_json(30)));
    members.push(("send_timeout", number_json(31)));
    members.push(("handshake_timeout", number_json(32)));
    let o = obj(members);
    let h2 = http2_opts(&o).unwrap();
    assert_eq!(h2.cert_pem, "certs/cert.pem");
    assert_eq!(h2.key_pem, "certs/key.pem");
    assert_eq!(h2.port, 4433);
    let h3 = http3_opts(&o).unwrap();
    assert_eq!(h3.cert_pem, "certs/cert.pem");
    assert_eq!(h3.storage_path, "/var/www/node/storage");
    let ws = ws_opts(&o).unwrap();
    assert_eq!(ws.max_message_size_kb, 64);
    assert_eq!(ws.ping_timeout, 15);
    assert_eq!(ws.rate_limit, 5);
    assert_eq!(ws.read_timeout, 30);
    assert_eq!(ws.send_timeout, 31);
    assert!(ws.compression);
    let wt = wt_opts(&o).unwrap();
    assert_eq!(wt.handshake_timeout, 32);
    assert_eq!(wt.key_pem, "certs/key.pem");
    assert_eq!(wt.thread_limit, 4);
    // without the TLS files, HTTP/2 reports cert_pem first
    let e = http2_opts(&obj(http1_options())).unwrap_err();
    assert_eq!(e.key, "cert_pem");
    let e = wt_opts(&obj(http1_options())).unwrap_err();
    assert_eq!(e.key, "cert_pem");
    let e = ws_opts(&obj(http1_options())).unwrap_err();
    assert_eq!(e.key, "max_message_size_kb");
    assert_eq!(e.message(), "[Arnelify Server]: NEON error: 'max_message_size_kb' missing or not a u64.");
}
