//! The commands that the JavaScript side sends over a server's local socket
//! to act on a stream, and the names of the socket's events.
use vstd::prelude::*;
use vstd::string::*;
use crate::json::Json;

verus! {

/// The protocols the binding serves.
#[derive(Debug, PartialEq, Eq, Structural, Clone, Copy)]
pub enum Protocol {
    Http1,
    Http2,
    WebSocket,
    Http3,
    WebTransport,
}

/// The word that starts the names of a protocol's socket events.
pub open spec fn prefix_text(p: Protocol) -> Seq<char> {
    match p {
        Protocol::Http1 => "http1"@,
        Protocol::Http2 => "http2"@,
        Protocol::WebSocket => "ws"@,
        Protocol::Http3 => "http3"@,
        Protocol::WebTransport => "wt"@,
    }
}

/// The word that starts the names of a protocol's socket events.
pub fn prefix(p: Protocol) -> (s: &'static str)
    ensures
        s@ == prefix_text(p),
{
    match p {
        Protocol::Http1 => "http1",
        Protocol::Http2 => "http2",
        Protocol::WebSocket => "ws",
        Protocol::Http3 => "http3",
        Protocol::WebTransport => "wt",
    }
}

/// The name of the socket event `word` of protocol `p`: the protocol's
/// word, an underscore, then `word`.
pub open spec fn event_text(p: Protocol, word: Seq<char>) -> Seq<char> {
    prefix_text(p) + "_"@ + word
}

/// The name of the socket event `word` of protocol `p`.
pub fn event_name(p: Protocol, word: &str) -> (s: String)
    ensures
        s@ == event_text(p, word@),
{
    let mut s = String::from_str(prefix(p));
    s.append("_");
    s.append(word);
    s
}

/// The commands that act on the response of an HTTP request.
#[derive(Debug, PartialEq, Eq, Structural, Clone, Copy)]
pub enum HttpEvent {
    AddHeader,
    End,
    PushBytes,
    PushFile,
    PushJson,
    SetCode,
    SetCompression,
    SetHeaders,
}

pub open spec fn http_event_text(e: HttpEvent) -> Seq<char> {
    match e {
        HttpEvent::AddHeader => "add_header"@,
        HttpEvent::End => "end"@,
        HttpEvent::PushBytes => "push_bytes"@,
        HttpEvent::PushFile => "push_file"@,
        HttpEvent::PushJson => "push_json"@,
        HttpEvent::SetCode => "set_code"@,
        HttpEvent::SetCompression => "set_compression"@,
        HttpEvent::SetHeaders => "set_headers"@,
    }
}

/// The word that names an HTTP command.
pub fn http_event_word(e: HttpEvent) -> (s: &'static str)
    ensures
        s@ == http_event_text(e),
{
    match e {
        HttpEvent::AddHeader => "add_header",
        HttpEvent::End => "end",
        HttpEvent::PushBytes => "push_bytes",
        HttpEvent::PushFile => "push_file",
        HttpEvent::PushJson => "push_json",
        HttpEvent::SetCode => "set_code",
        HttpEvent::SetCompression => "set_compression",
        HttpEvent::SetHeaders => "set_headers",
    }
}

/// How many arguments an HTTP command reads by position.
pub open spec fn http_arity_spec(e: HttpEvent) -> nat {
    match e {
        HttpEvent::AddHeader => 3,
        HttpEvent::End => 1,
        HttpEvent::PushBytes => 2,
        HttpEvent::PushFile => 3,
        HttpEvent::PushJson => 3,
        HttpEvent::SetCode => 2,
        HttpEvent::SetCompression => 2,
        HttpEvent::SetHeaders => 1,
    }
}

/// How many arguments an HTTP command reads by position.
pub fn http_arity(e: HttpEvent) -> (n: usize)
    ensures
        n == http_arity_spec(e),
{
    match e {
        HttpEvent::AddHeader => 3,
        HttpEvent::End => 1,
        HttpEvent::PushBytes => 2,
        HttpEvent::PushFile => 3,
        HttpEvent::PushJson => 3,
        HttpEvent::SetCode => 2,
        HttpEvent::SetCompression => 2,
        HttpEvent::SetHeaders => 1,
    }
}

/// The commands that act on a WebSocket or WebTransport stream.
#[derive(Debug, PartialEq, Eq, Structural, Clone, Copy)]
pub enum MessageEvent {
    Close,
    Push,
    PushBytes,
    PushJson,
    SetCompression,
}

pub open spec fn message_event_text(e: MessageEvent) -> Seq<char> {
    match e {
        MessageEvent::Close => "close"@,
        MessageEvent::Push => "push"@,
        MessageEvent::PushBytes => "push_bytes"@,
        MessageEvent::PushJson => "push_json"@,
        MessageEvent::SetCompression => "set_compression"@,
    }
}

/// The word that names a stream command.
pub fn message_event_word(e: MessageEvent) -> (s: &'static str)
    ensures
        s@ == message_event_text(e),
{
    match e {
        MessageEvent::Close => "close",
        MessageEvent::Push => "push",
        MessageEvent::PushBytes => "push_bytes",
        MessageEvent::PushJson => "push_json",
        MessageEvent::SetCompression => "set_compression",
    }
}

/// How many arguments a stream command reads by position.
pub open spec fn message_arity_spec(e: MessageEvent) -> nat {
    match e {
        MessageEvent::Close => 1,
        MessageEvent::Push => 2,
        MessageEvent::PushBytes => 1,
        MessageEvent::PushJson => 2,
        MessageEvent::SetCompression => 2,
    }
}

/// How many arguments a stream command reads by position.
pub fn message_arity(e: MessageEvent) -> (n: usize)
    ensures
        n == message_arity_spec(e),
{
    match e {
        MessageEvent::Close => 1,
        MessageEvent::Push => 2,
        MessageEvent::PushBytes => 1,
        MessageEvent::PushJson => 2,
        MessageEvent::SetCompression => 2,
    }
}

/// An argument read as an unsigned integer, 0 when it is not one.
pub open spec fn u64_or_zero(v: Json) -> u64 {
    match v.spec_as_u64() {
        Some(n) => n,
        None => 0,
    }
}

/// An argument read as a string, empty when it is not one.
pub open spec fn str_or_empty(v: Json) -> Seq<char> {
    match v.spec_as_str() {
        Some(s) => s,
        None => Seq::empty(),
    }
}

/// An argument read as a flag: an unsigned integer other than 0.
pub open spec fn flag_of(v: Json) -> bool {
    u64_or_zero(v) != 0
}

/// A status code as the stream receives it: the low 16 bits of the argument.
pub open spec fn code_of(v: Json) -> u16 {
    (u64_or_zero(v) % 0x10000) as u16
}

/// The text of a header value: a string as it is, a number as written, a
/// boolean as `true` or `false`; other values give no header.
pub open spec fn header_text(v: Json) -> Option<Seq<char>> {
    match v {
        Json::Str(s) => Some(s@),
        Json::Number(n) => Some(n.text@),
        Json::Bool(b) => Some(
            if b {
                "true"@
            } else {
                "false"@
            },
        ),
        _ => None,
    }
}

/// The headers that the members of an object give, in member order.
pub open spec fn header_pairs(members: Seq<(String, Json)>) -> Seq<(Seq<char>, Seq<char>)>
    decreases members.len(),
{
    if members.len() == 0 {
        Seq::empty()
    } else {
        let rest = header_pairs(members.drop_last());
        match header_text(members.last().1) {
            Some(t) => rest.push((members.last().0@, t)),
            None => rest,
        }
    }
}

/// The headers of a `set_headers` command: those of its second argument when
/// that is an object, none otherwise.
pub open spec fn headers_arg(args: Seq<Json>) -> Seq<(Seq<char>, Seq<char>)> {
    if args.len() >= 2 {
        match args[1] {
            Json::Object(members) => header_pairs(members@),
            _ => Seq::empty(),
        }
    } else {
        Seq::empty()
    }
}

/// The texts of a list of headers.
pub open spec fn headers_view(h: Seq<(String, String)>) -> Seq<(Seq<char>, Seq<char>)> {
    h.map_values(|p: (String, String)| (p.0@, p.1@))
}

/// A compression setting as the stream receives it: none for an empty name.
pub open spec fn compression_matches(c: Option<String>, v: Json) -> bool {
    match c {
        Some(name) => name@ == str_or_empty(v) && name@.len() > 0,
        None => str_or_empty(v).len() == 0,
    }
}

/// An HTTP command with its arguments.
#[derive(Debug, PartialEq)]
pub enum HttpCommand {
    AddHeader { key: String, value: String },
    End,
    PushBytes { is_attachment: bool },
    PushFile { file_path: String, is_attachment: bool },
    PushJson { json: Json, is_attachment: bool },
    SetCode { code: u16 },
    SetCompression { compression: Option<String> },
    SetHeaders { headers: Vec<(String, String)> },
}

/// `cmd` is what the command `e` reads from the arguments `args`.
pub open spec fn http_command_read(e: HttpEvent, args: Seq<Json>, cmd: HttpCommand) -> bool {
    match e {
        HttpEvent::AddHeader => cmd matches HttpCommand::AddHeader { key, value } && key@
            == str_or_empty(args[1]) && value@ == str_or_empty(args[2]),
        HttpEvent::End => cmd is End,
        HttpEvent::PushBytes => cmd matches HttpCommand::PushBytes { is_attachment }
            && is_attachment == flag_of(args[1]),
        HttpEvent::PushFile => cmd matches HttpCommand::PushFile { file_path, is_attachment }
            && file_path@ == str_or_empty(args[1]) && is_attachment == flag_of(args[2]),
        HttpEvent::PushJson => cmd matches HttpCommand::PushJson { json, is_attachment } && json
            == args[1] && is_attachment == flag_of(args[2]),
        HttpEvent::SetCode => cmd matches HttpCommand::SetCode { code } && code == code_of(
            args[1],
        ),
        HttpEvent::SetCompression => cmd matches HttpCommand::SetCompression { compression }
            && compression_matches(compression, args[1]),
        HttpEvent::SetHeaders => cmd matches HttpCommand::SetHeaders { headers } && headers_view(
            headers@,
        ) == headers_arg(args),
    }
}

/// Reads an argument as an unsigned integer, 0 when it is not one.
pub fn arg_u64(v: &Json) -> (r: u64)
    ensures
        r == u64_or_zero(*v),
{
    match v.as_u64() {
        Some(n) => n,
        None => 0,
    }
}

/// Reads an argument as a string, empty when it is not one.
pub fn arg_str(v: &Json) -> (r: String)
    ensures
        r@ == str_or_empty(*v),
{
    match v.as_str() {
        Some(s) => s.clone(),
        None => String::new(),
    }
}

/// Reads a compression setting: none for an empty name.
pub fn arg_compression(v: &Json) -> (r: Option<String>)
    ensures
        compression_matches(r, *v),
{
    let name = arg_str(v);
    if name.as_str().is_empty() {
        None
    } else {
        Some(name)
    }
}

/// The text of a header value.
pub fn header_value(v: &Json) -> (r: Option<String>)
    ensures
        match r {
            Some(t) => header_text(*v) == Some(t@),
            None => header_text(*v) is None,
        },
{
    match v {
        Json::Str(s) => Some(s.clone()),
        Json::Number(n) => Some(n.text.clone()),
        Json::Bool(b) => {
            if *b {
                Some(String::from_str("true"))
            } else {
                Some(String::from_str("false"))
            }
        },
        _ => None,
    }
}

/// The headers that the members of an object give.
pub fn headers_from_members(members: &Vec<(String, Json)>) -> (r: Vec<(String, String)>)
    ensures
        headers_view(r@) == header_pairs(members@),
{
    let mut out: Vec<(String, String)> = Vec::new();
    let mut i: usize = 0;
    assert(members@.take(0) =~= Seq::<(String, Json)>::empty());
    assert(headers_view(out@) =~= Seq::<(Seq<char>, Seq<char>)>::empty());
    while i < members.len()
        invariant
            i <= members@.len(),
            headers_view(out@) == header_pairs(members@.take(i as int)),
        decreases members@.len() - i,
    {
        let ghost before = out@;
        assert(members@.take(i + 1).drop_last() =~= members@.take(i as int));
        assert(members@.take(i + 1).last() == members@[i as int]);
        match header_value(&members[i].1) {
            Some(t) => {
                out.push((members[i].0.clone(), t));
                assert(headers_view(out@) =~= headers_view(before).push(
                    (members@[i as int].0@, t@),
                ));
            },
            None => {},
        }
        i = i + 1;
    }
    assert(members@.take(members@.len() as int) =~= members@);
    out
}

/// Reads an HTTP command: the id of the stream it acts on and the command.
/// Arguments that are not a list give no command.
pub fn decode_http(e: HttpEvent, args: Json) -> (r: Option<(u64, HttpCommand)>)
    requires
        args matches Json::Array(v) ==> v@.len() >= http_arity_spec(e),
    ensures
        match r {
            None => !(args is Array),
            Some((id, cmd)) => args matches Json::Array(v) && id == u64_or_zero(v@[0])
                && http_command_read(e, v@, cmd),
        },
{
    match args {
        Json::Array(v) => {
            let mut v = v;
            let ghost a = v@;
            let stream_id = arg_u64(&v[0]);
            let cmd = match e {
                HttpEvent::AddHeader => HttpCommand::AddHeader {
                    key: arg_str(&v[1]),
                    value: arg_str(&v[2]),
                },
                HttpEvent::End => HttpCommand::End,
                HttpEvent::PushBytes => HttpCommand::PushBytes { is_attachment: arg_u64(&v[1]) != 0 },
                HttpEvent::PushFile => HttpCommand::PushFile {
                    file_path: arg_str(&v[1]),
                    is_attachment: arg_u64(&v[2]) != 0,
                },
                HttpEvent::PushJson => {
                    let is_attachment = arg_u64(&v[2]) != 0;
                    let json = v.remove(1);
                    HttpCommand::PushJson { json, is_attachment }
                },
                HttpEvent::SetCode => {
                    let code = arg_u64(&v[1]);
                    HttpCommand::SetCode { code: (code % 0x10000) as u16 }
                },
                HttpEvent::SetCompression => HttpCommand::SetCompression {
                    compression: arg_compression(&v[1]),
                },
                HttpEvent::SetHeaders => {
                    let headers = if v.len() >= 2 {
                        match &v[1] {
                            Json::Object(members) => headers_from_members(members),
                            _ => Vec::new(),
                        }
                    } else {
                        Vec::new()
                    };
                    assert(headers_view(headers@) == headers_arg(a));
                    HttpCommand::SetHeaders { headers }
                },
            };
            Some((stream_id, cmd))
        },
        _ => None,
    }
}

/// A WebSocket or WebTransport command with its arguments.
#[derive(Debug, PartialEq)]
pub enum MessageCommand {
    Close,
    Push { json: Json },
    PushBytes,
    PushJson { json: Json },
    SetCompression { compression: Option<String> },
}

/// `cmd` is what the command `e` reads from the arguments `args`.
pub open spec fn message_command_read(e: MessageEvent, args: Seq<Json>, cmd: MessageCommand) -> bool {
    match e {
        MessageEvent::Close => cmd is Close,
        MessageEvent::Push => cmd matches MessageCommand::Push { json } && json == args[1],
        MessageEvent::PushBytes => cmd is PushBytes,
        MessageEvent::PushJson => cmd matches MessageCommand::PushJson { json } && json == args[1],
        MessageEvent::SetCompression => cmd matches MessageCommand::SetCompression { compression }
            && compression_matches(compression, args[1]),
    }
}

fn decode_message_args(e: MessageEvent, v: Vec<Json>) -> (cmd: MessageCommand)
    requires
        v@.len() >= message_arity_spec(e),
    ensures
        message_command_read(e, v@, cmd),
{
    let mut v = v;
    match e {
        MessageEvent::Close => MessageCommand::Close,
        MessageEvent::Push => MessageCommand::Push { json: v.remove(1) },
        MessageEvent::PushBytes => MessageCommand::PushBytes,
        MessageEvent::PushJson => MessageCommand::PushJson { json: v.remove(1) },
        MessageEvent::SetCompression => MessageCommand::SetCompression {
            compression: arg_compression(&v[1]),
        },
    }
}

/// Reads a WebSocket command: the address of the peer whose stream it acts
/// on and the command. Arguments that are not a list give no command.
pub fn decode_ws(e: MessageEvent, args: Json) -> (r: Option<(String, MessageCommand)>)
    requires
        args matches Json::Array(v) ==> v@.len() >= message_arity_spec(e),
    ensures
        match r {
            None => !(args is Array),
            Some((addr, cmd)) => args matches Json::Array(v) && addr@ == str_or_empty(v@[0])
                && message_command_read(e, v@, cmd),
        },
{
    match args {
        Json::Array(v) => {
            let addr = arg_str(&v[0]);
            Some((addr, decode_message_args(e, v)))
        },
        _ => None,
    }
}

/// Reads a WebTransport command: the id of the stream it acts on and the
/// command. Arguments that are not a list give no command.
pub fn decode_wt(e: MessageEvent, args: Json) -> (r: Option<(u64, MessageCommand)>)
    requires
        args matches Json::Array(v) ==> v@.len() >= message_arity_spec(e),
    ensures
        match r {
            None => !(args is Array),
            Some((id, cmd)) => args matches Json::Array(v) && id == u64_or_zero(v@[0])
                && message_command_read(e, v@, cmd),
        },
{
    match args {
        Json::Array(v) => {
            let id = arg_u64(&v[0]);
            Some((id, decode_message_args(e, v)))
        },
        _ => None,
    }
}

} // verus!
