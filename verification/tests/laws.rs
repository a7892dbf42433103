use arnelify_server::addr_table::AddrTable;
use arnelify_server::events::{open_stream, ws_disconnect, ws_message};
use arnelify_server::json::{decimal_string, number_json, str_json, Json};
use arnelify_server::options::{check_fields, FieldKind, FieldSpec};
use arnelify_server::registry::{Instances, StreamTable};

fn obj(members: Vec<(&str, Json)>) -> Json {
    Json::Object(members.into_iter().map(|(k, v)| (k.to_string(), v)).collect())
}

#[test]
fn decimal_text_denotes_the_number() {
    for n in [0u64, 1, 9, 10, 99, 100, 4433, 1_000_000_007, u64::MAX] {
        let text = decimal_string(n);
        assert_eq!(text.parse::<u64>().unwrap(), n);
        assert!(text.chars().all(|c| c.is_ascii_digit()));
        assert!(n == 0 || !text.starts_with('0'));
    }
}

#[test]
fn consecutive_streams_get_different_ids() {
    let mut t: StreamTable<u8> = StreamTable::new();
    let a = t.register(1);
    let b = t.register(2);
    let c = t.register(3);
    assert!(a != b && b != c);
    assert_eq!(t.get(a), Some(&1));
    assert_eq!(t.get(c), Some(&3));
}

#[test]
fn request_round_trip_restores_table() {
    let mut t: StreamTable<&str> = StreamTable::new();
    let (kept, _) = open_stream(&mut t, "/kept", Json::Null, "kept");
    let (id, _) = open_stream(&mut t, "/", Json::Null, "request");
    assert_eq!(t.get(id), Some(&"request"));
    assert_eq!(t.remove(id), Some("request"));
    assert_eq!(t.get(id), None);
    assert_eq!(t.get(kept), Some(&"kept"));
}

#[test]
fn destroyed_servers_are_forgotten() {
    let mut inst: Instances<u8, u8> = Instances::new();
    let a = inst.next_id();
    let b = inst.next_id();
    inst.add_socket(a, 1);
    inst.add_server(a, 2);
    inst.add_socket(b, 3);
    inst.add_server(b, 4);
    inst.destroy(b);
    assert_eq!((inst.socket(b), inst.server(b)), (None, None));
    assert_eq!((inst.socket(a), inst.server(a)), (Some(&1), Some(&2)));
    let c = inst.next_id();
    assert!(c > b && c > a);
}

#[test]
fn disconnect_undoes_message() {
    let ctx = || obj(vec![("_state", obj(vec![("addr", str_json("peer"))]))]);
    let mut t: AddrTable<u8> = AddrTable::new();
    ws_message(&mut t, "hello", obj(vec![("_state", obj(vec![("addr", str_json("other"))]))]), 1);
    ws_message(&mut t, "hello", ctx(), 2);
    assert_eq!(t.get("peer"), Some(&2));
    ws_disconnect(&mut t, &ctx());
    assert_eq!(t.get("peer"), None);
    assert_eq!(t.get("other"), Some(&1));
}

#[test]
fn reported_field_error_is_determined() {
    let o = obj(vec![("a", number_json(1)), ("b", str_json("x"))]);
    let fields = vec![
        FieldSpec { key: "a", kind: FieldKind::U8 },
        FieldSpec { key: "b", kind: FieldKind::Bool },
        FieldSpec { key: "c", kind: FieldKind::Str },
    ];
    assert_eq!(check_fields(&o, &fields), check_fields(&o, &fields));
    assert_eq!(check_fields(&o, &fields).unwrap_err().key, "b");
    assert!(check_fields(&o, &fields[..1].to_vec()).is_ok());
}

#[test]
fn ids_grow_across_destroys() {
    let mut inst: Instances<u8, u8> = Instances::new();
    let a = inst.next_id();
    inst.add_socket(a, 1);
    inst.add_server(a, 1);
    inst.destroy(a);
    let b = inst.next_id();
    inst.destroy(b);
    let c = inst.next_id();
    assert!(1 <= a && a < b && b < c);
}
