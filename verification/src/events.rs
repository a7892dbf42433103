//! What the binding does when a server hands it a request or a message, and
//! when a command names a stream: which stream acts, and what is sent back
//! to the JavaScript side.
use vstd::prelude::*;
use vstd::string::*;
use crate::json::{decimal_text, number_json, str_json, Json};
use crate::commands::{
    event_text, http_event_text, http_event_word, message_event_text, message_event_word,
    HttpEvent, MessageEvent, Protocol, event_name,
};
use crate::registry::{following_id, StreamTable};
use crate::addr_table::AddrTable;

verus! {

/// `j` is the list of the two strings `a` and `b`.
pub open spec fn is_str_pair(j: Json, a: Seq<char>, b: Seq<char>) -> bool {
    &&& j matches Json::Array(items)
    &&& items@.len() == 2
    &&& items@[0].spec_as_str() == Some(a)
    &&& items@[1].spec_as_str() == Some(b)
}

/// The text of the report that the command `word` found no stream.
pub open spec fn no_stream_text(p: Protocol, word: Seq<char>) -> Seq<char> {
    "NEON error in uds_"@ + event_text(p, word) + ": No stream found."@
}

/// The report, sent as a log line of level `error`, that the command `word`
/// of protocol `p` found no stream.
pub fn no_stream_report(p: Protocol, word: &str) -> (r: Json)
    ensures
        is_str_pair(r, "error"@, no_stream_text(p, word@)),
        r.wf(),
{
    let mut text = String::from_str("NEON error in uds_");
    let name = event_name(p, word);
    text.append(name.as_str());
    text.append(": No stream found.");
    let items = vec![str_json("error"), Json::Str(text)];
    assert(items@[1].wf());
    Json::Array(items)
}

/// The arguments of a log line: its level and its message.
pub fn logger_args(level: &str, message: &str) -> (r: Json)
    ensures
        is_str_pair(r, level@, message@),
        r.wf(),
{
    Json::Array(vec![str_json(level), str_json(message)])
}

/// The name of the socket event that carries the log lines of protocol `p`.
pub fn logger_event(p: Protocol) -> (s: String)
    ensures
        s@ == event_text(p, "logger"@),
{
    event_name(p, "logger")
}

/// The name of the socket event that hands a request or a message of
/// protocol `p` to the JavaScript side.
pub fn request_event(p: Protocol) -> (s: String)
    ensures
        s@ == event_text(p, "on"@),
{
    event_name(p, "on")
}

/// Finds the stream that an HTTP command acts on, or the report that there
/// is none.
pub fn route_http<'a, T>(table: &'a StreamTable<T>, p: Protocol, e: HttpEvent, stream_id: u64) -> (r:
    Result<&'a T, Json>)
    ensures
        match r {
            Ok(s) => table.streams().contains_key(stream_id) && table.streams()[stream_id] == *s,
            Err(report) => !table.streams().contains_key(stream_id) && is_str_pair(
                report,
                "error"@,
                no_stream_text(p, http_event_text(e)),
            ),
        },
{
    match table.get(stream_id) {
        Some(s) => Ok(s),
        None => Err(no_stream_report(p, http_event_word(e))),
    }
}

/// Finds the WebSocket stream that a command acts on, or the report that
/// there is none.
pub fn route_ws<'a, T>(table: &'a AddrTable<T>, e: MessageEvent, addr: &str) -> (r: Result<
    &'a T,
    Json,
>)
    requires
        table.wf(),
    ensures
        match r {
            Ok(s) => table@.contains_key(addr@) && table@[addr@] == *s,
            Err(report) => !table@.contains_key(addr@) && is_str_pair(
                report,
                "error"@,
                no_stream_text(Protocol::WebSocket, message_event_text(e)),
            ),
        },
{
    match table.get(addr) {
        Some(s) => Ok(s),
        None => Err(no_stream_report(Protocol::WebSocket, message_event_word(e))),
    }
}

/// Finds the WebTransport stream that a command other than `close` acts on,
/// or the report that there is none.
pub fn route_wt<'a, T>(table: &'a StreamTable<T>, e: MessageEvent, stream_id: u64) -> (r: Result<
    &'a T,
    Json,
>)
    ensures
        match r {
            Ok(s) => table.streams().contains_key(stream_id) && table.streams()[stream_id] == *s,
            Err(report) => !table.streams().contains_key(stream_id) && is_str_pair(
                report,
                "error"@,
                no_stream_text(Protocol::WebTransport, message_event_text(e)),
            ),
        },
{
    match table.get(stream_id) {
        Some(s) => Ok(s),
        None => Err(no_stream_report(Protocol::WebTransport, message_event_word(e))),
    }
}

/// Takes the WebTransport stream that a `close` command closes out of the
/// table, or gives the report that there is none.
pub fn close_wt<T>(table: &mut StreamTable<T>, stream_id: u64) -> (r: Result<T, Json>)
    requires
        old(table).wf(),
    ensures
        final(table).wf(),
        final(table).counting_up() == old(table).counting_up(),
        final(table).next_id() == old(table).next_id(),
        final(table).streams() == old(table).streams().remove(stream_id),
        match r {
            Ok(s) => old(table).streams().contains_key(stream_id) && old(table).streams()[stream_id]
                == s,
            Err(report) => !old(table).streams().contains_key(stream_id) && is_str_pair(
                report,
                "error"@,
                no_stream_text(Protocol::WebTransport, "close"@),
            ),
        },
{
    match table.remove(stream_id) {
        Some(s) => Ok(s),
        None => Err(no_stream_report(Protocol::WebTransport, "close")),
    }
}

/// `j` is the list `[id, name, ctx]` that hands a request to the JavaScript
/// side: the stream's id as a number, the route or topic, and the context.
pub open spec fn is_request_args(j: Json, id: u64, name: Seq<char>, ctx: Json) -> bool {
    &&& j matches Json::Array(items)
    &&& items@.len() == 3
    &&& items@[0] matches Json::Number(n) && n.as_u64 == Some(id) && n.text@ == decimal_text(
        id as nat,
    )
    &&& items@[1].spec_as_str() == Some(name)
    &&& items@[2] == ctx
}

/// Files the stream of a new HTTP request or WebTransport message under the
/// next id, and gives the arguments that hand it to the JavaScript side.
pub fn open_stream<T>(table: &mut StreamTable<T>, name: &str, ctx: Json, stream: T) -> (r: (
    u64,
    Json,
))
    requires
        old(table).wf(),
    ensures
        final(table).wf(),
        final(table).counting_up() == (old(table).counting_up() && r.0 != u64::MAX),
        old(table).counting_up() ==> !old(table).streams().contains_key(r.0),
        r.0 == old(table).next_id(),
        final(table).next_id() == following_id(r.0),
        final(table).streams() == old(table).streams().insert(r.0, stream),
        is_request_args(r.1, r.0, name@, ctx),
        ctx.wf() ==> r.1.wf(),
{
    let id = table.register(stream);
    let args = Json::Array(vec![number_json(id), str_json(name), ctx]);
    (id, args)
}

/// The address of the peer that a WebSocket context names under
/// `_state.addr`.
pub open spec fn peer_addr(ctx: Json) -> Option<Seq<char>> {
    match ctx.spec_get("_state"@) {
        Some(state) => match state.spec_get("addr"@) {
            Some(a) => a.spec_as_str(),
            None => None,
        },
        None => None,
    }
}

/// The address of the peer that a WebSocket context names.
pub fn peer_address(ctx: &Json) -> (r: Option<String>)
    ensures
        match r {
            Some(a) => peer_addr(*ctx) == Some(a@),
            None => peer_addr(*ctx) is None,
        },
{
    match ctx.get("_state") {
        Some(state) => match state.get("addr") {
            Some(a) => match a.as_str() {
                Some(s) => Some(s.clone()),
                None => None,
            },
            None => None,
        },
        None => None,
    }
}

/// `j` is the list `[addr, topic, ctx]` that hands a WebSocket message to the
/// JavaScript side.
pub open spec fn is_message_args(j: Json, addr: Seq<char>, topic: Seq<char>, ctx: Json) -> bool {
    &&& j matches Json::Array(items)
    &&& items@.len() == 3
    &&& items@[0].spec_as_str() == Some(addr)
    &&& items@[1].spec_as_str() == Some(topic)
    &&& items@[2] == ctx
}

/// Handles a WebSocket message on `topic`: a context without a peer address
/// is dropped; the topic `_disconnect` forgets the peer's stream; any other
/// topic files the stream under the peer's address and gives the arguments
/// that hand the message to the JavaScript side.
pub fn ws_message<T>(table: &mut AddrTable<T>, topic: &str, ctx: Json, stream: T) -> (r: Option<Json>)
    requires
        old(table).wf(),
    ensures
        final(table).wf(),
        match peer_addr(ctx) {
            None => r is None && final(table)@ == old(table)@,
            Some(addr) => if topic@ == "_disconnect"@ {
                r is None && final(table)@ == old(table)@.remove(addr)
            } else {
                &&& final(table)@ == old(table)@.insert(addr, stream)
                &&& r matches Some(j) && is_message_args(j, addr, topic@, ctx)
            },
        },
        ctx.wf() ==> (r matches Some(j) ==> j.wf()),
{
    match peer_address(&ctx) {
        None => None,
        Some(addr) => {
            if String::from_str(topic) == String::from_str("_disconnect") {
                table.remove(addr.as_str());
                None
            } else {
                let addr_json = Json::Str(addr.clone());
                table.insert(addr, stream);
                let items = vec![addr_json, str_json(topic), ctx];
                assert(items@[0].wf());
                Some(Json::Array(items))
            }
        },
    }
}

/// Forgets the stream of the peer that a `_disconnect` context names.
pub fn ws_disconnect<T>(table: &mut AddrTable<T>, ctx: &Json)
    requires
        old(table).wf(),
    ensures
        final(table).wf(),
        final(table)@ == match peer_addr(*ctx) {
            Some(addr) => old(table)@.remove(addr),
            None => old(table)@,
        },
{
    match peer_address(ctx) {
        Some(addr) => {
            table.remove(addr.as_str());
        },
        None => {},
    }
}

} // verus!
