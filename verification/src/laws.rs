//! Laws that relate the operations of the library to one another.
use vstd::prelude::*;
use vstd::string::*;
use crate::commands::{
    header_pairs, headers_arg, http_command_read, message_command_read, HttpCommand, HttpEvent,
    MessageCommand, MessageEvent,
};
use crate::config::{
    http1_opts_read, http2_opts_read, http3_opts_read, uds_opts_read, ws_opts_read, wt_opts_read,
    Http1Opts, Http2Opts, Http3Opts, UnixDomainSocketOpts, WebSocketOpts, WebTransportOpts,
};
use crate::json::{decimal_text, digit_char, Json};
use crate::options::{
    field_problem, fields_readable, is_first_error, FieldError, FieldKind, FieldProblem, FieldSpec,
};
use crate::registry::following_id;

verus! {

/// The value of a decimal digit character.
pub open spec fn digit_value(c: char) -> int {
    c as int - '0' as int
}

/// The number that a text of decimal digits denotes.
pub open spec fn decimal_value(s: Seq<char>) -> int
    decreases s.len(),
{
    if s.len() == 0 {
        0
    } else {
        decimal_value(s.drop_last()) * 10 + digit_value(s.last())
    }
}

/// Law: the decimal text of a number is made of digits, starts with a
/// digit other than `0` unless the number is 0, and denotes the number.
pub proof fn law_decimal_text_denotes(n: nat)
    ensures
        decimal_value(decimal_text(n)) == n,
        decimal_text(n).len() >= 1,
        forall|i: int|
            0 <= i < decimal_text(n).len() ==> '0' <= #[trigger] decimal_text(n)[i] <= '9',
        n > 0 ==> decimal_text(n)[0] != '0',
    decreases n,
{
    if n < 10 {
        assert(decimal_text(n) =~= seq![digit_char(n)]);
        assert(decimal_text(n).drop_last() =~= Seq::<char>::empty());
        assert(decimal_text(n).last() == digit_char(n));
        assert(digit_value(digit_char(n)) == n);
        assert(decimal_value(Seq::<char>::empty()) == 0);
        assert(decimal_value(decimal_text(n)) == decimal_value(decimal_text(n).drop_last()) * 10
            + digit_value(decimal_text(n).last()));
    } else {
        law_decimal_text_denotes(n / 10);
        let s = decimal_text(n / 10);
        let t = decimal_text(n);
        assert(t == s.push(digit_char(n % 10)));
        assert(t.drop_last() =~= s);
        assert(t.last() == digit_char(n % 10));
        assert(digit_value(digit_char(n % 10)) == n % 10);
        assert(forall|i: int| 0 <= i < s.len() ==> t[i] == s[i]);
        assert(decimal_value(t) == decimal_value(s) * 10 + digit_value(t.last()));
        assert((n / 10) * 10 + n % 10 == n);
    }
}

/// One operation on a registry keeps its last id, or takes the next one.
/// `Instances::next_id` takes one; `add_socket`, `add_server` and `destroy`
/// keep it; `plan_create` takes one exactly when the options are JSON.
pub open spec fn id_step(before: u64, after: u64) -> bool {
    after == before || after == before + 1
}

/// Every operation of a run of registry operations is such a step.
pub open spec fn run_of_steps(last: Seq<u64>) -> bool {
    forall|i: int| 0 < i < last.len() ==> id_step(last[i - 1], #[trigger] last[i])
}

proof fn lemma_last_id_never_falls(last: Seq<u64>, a: int, b: int)
    requires
        run_of_steps(last),
        0 <= a <= b < last.len(),
    ensures
        last[a] <= last[b],
    decreases b - a,
{
    if a < b {
        lemma_last_id_never_falls(last, a, b - 1);
        assert(id_step(last[b - 1], last[b]));
    }
}

/// Law: over a run of registry operations (`last` lists the last id before
/// the run and after each operation), an id taken by an operation is at
/// least 1 and smaller than every id taken by a later operation, whatever
/// servers were destroyed in between: ids are never handed out twice, and
/// 0 never names a server.
pub proof fn law_ids_grow_over_a_run(last: Seq<u64>, j: int, k: int)
    requires
        run_of_steps(last),
        0 < j < k < last.len(),
        last[j] == last[j - 1] + 1,
        last[k] == last[k - 1] + 1,
    ensures
        1 <= last[j] < last[k],
{
    lemma_last_id_never_falls(last, j, k - 1);
}

/// Law: the stream that follows another never gets the same id.
pub proof fn law_stream_ids_differ(id: u64)
    ensures
        following_id(id) != id,
{
}

/// Law: filing a request's stream under an id not in use and then taking
/// it out again (when the request ends) gives the stream back and leaves
/// the table as it was.
pub proof fn law_request_round_trip<T>(streams: Map<u64, T>, id: u64, stream: T)
    requires
        !streams.contains_key(id),
    ensures
        streams.insert(id, stream).contains_key(id),
        streams.insert(id, stream)[id] == stream,
        streams.insert(id, stream).remove(id) == streams,
{
    assert(streams.insert(id, stream).remove(id) =~= streams);
}

/// Law: once a server is destroyed, neither it nor its socket is found
/// under its id, and every other id finds what it found before.
pub proof fn law_destroy_forgets<U, S>(
    sockets: Map<u64, U>,
    servers: Map<u64, S>,
    id: u64,
    other: u64,
)
    requires
        other != id,
    ensures
        !sockets.remove(id).contains_key(id),
        !servers.remove(id).contains_key(id),
        sockets.remove(id).contains_key(other) == sockets.contains_key(other),
        servers.remove(id).contains_key(other) == servers.contains_key(other),
        sockets.contains_key(other) ==> sockets.remove(id)[other] == sockets[other],
        servers.contains_key(other) ==> servers.remove(id)[other] == servers[other],
{
}

/// Law: a peer's `_disconnect` undoes the filing of its stream by an
/// earlier message: the table is left as if the peer had never been filed.
pub proof fn law_disconnect_undoes_message<T>(table: Map<Seq<char>, T>, addr: Seq<char>, stream: T)
    ensures
        table.insert(addr, stream).remove(addr) == table.remove(addr),
        !table.insert(addr, stream).remove(addr).contains_key(addr),
{
    assert(table.insert(addr, stream).remove(addr) =~= table.remove(addr));
}

/// Law: the field error that reading a record reports is determined by the
/// options: any two reports name the same field with the same problem.
pub proof fn law_first_error_is_unique(
    opts: crate::json::Json,
    fields: Seq<FieldSpec>,
    e1: FieldError,
    e2: FieldError,
)
    requires
        is_first_error(opts, fields, e1),
        is_first_error(opts, fields, e2),
    ensures
        e1.key@ == e2.key@,
        e1.kind == e2.kind,
        e1.problem == e2.problem,
{
    let i = choose|i: int|
        0 <= i < fields.len() && fields_readable(opts, fields, i) && #[trigger] field_problem(
            opts,
            fields[i].key@,
            fields[i].kind,
        ) == Some(e1.problem) && e1.key@ == fields[i].key@ && e1.kind == fields[i].kind;
    let j = choose|j: int|
        0 <= j < fields.len() && fields_readable(opts, fields, j) && #[trigger] field_problem(
            opts,
            fields[j].key@,
            fields[j].kind,
        ) == Some(e2.problem) && e2.key@ == fields[j].key@ && e2.kind == fields[j].kind;
    if i < j {
        assert(field_problem(opts, fields[i].key@, fields[i].kind) is None);
    } else if j < i {
        assert(field_problem(opts, fields[j].key@, fields[j].kind) is None);
    }
}

/// Law: options whose fields can all be read give no field error.
pub proof fn law_readable_fields_give_no_error(
    opts: crate::json::Json,
    fields: Seq<FieldSpec>,
    e: FieldError,
)
    requires
        fields_readable(opts, fields, fields.len() as int),
    ensures
        !is_first_error(opts, fields, e),
{
}


/// Law: a header object is read member by member, in order. A string member
/// gives its text, a number member the text it was written with, a boolean
/// member the word `true` or `false` (as a boolean is written), and any
/// other member gives no header.
pub proof fn law_header_members_in_order(members: Seq<(String, Json)>, key: String, value: Json)
    ensures
        value matches Json::Str(s) ==> header_pairs(members.push((key, value))) == header_pairs(
            members,
        ).push((key@, s@)),
        value matches Json::Number(n) ==> header_pairs(members.push((key, value))) == header_pairs(
            members,
        ).push((key@, n.text@)),
        value == Json::Bool(true) ==> header_pairs(members.push((key, value))) == header_pairs(
            members,
        ).push((key@, seq!['t', 'r', 'u', 'e'])),
        value == Json::Bool(false) ==> header_pairs(members.push((key, value))) == header_pairs(
            members,
        ).push((key@, seq!['f', 'a', 'l', 's', 'e'])),
        (value is Null || value is Array || value is Object) ==> header_pairs(
            members.push((key, value)),
        ) == header_pairs(members),
{
    reveal_strlit("true");
    reveal_strlit("false");
    assert("true"@ =~= seq!['t', 'r', 'u', 'e']);
    assert("false"@ =~= seq!['f', 'a', 'l', 's', 'e']);
    assert(members.push((key, value)).drop_last() =~= members);
    assert(members.push((key, value)).last() == (key, value));
}

/// Law: `set_headers` takes its headers from the object that is its second
/// argument, and from nothing else.
pub proof fn law_set_headers_reads_second_argument(args: Seq<Json>)
    ensures
        args.len() >= 2 ==> (args[1] matches Json::Object(m) ==> headers_arg(args)
            == header_pairs(m@)),
        !(args.len() >= 2 && args[1] is Object) ==> headers_arg(args).len() == 0,
{
}

/// Law: a `push` or `push_json` command on a WebSocket or WebTransport
/// stream carries exactly the second argument of the list as its payload.
pub proof fn law_pushed_message_is_second_argument(
    e: MessageEvent,
    args: Seq<Json>,
    cmd: MessageCommand,
)
    requires
        message_command_read(e, args, cmd),
    ensures
        e == MessageEvent::Push ==> cmd == (MessageCommand::Push { json: args[1] }),
        e == MessageEvent::PushJson ==> cmd == (MessageCommand::PushJson { json: args[1] }),
{
}

/// Law: an HTTP `push_json` command carries exactly the second argument of
/// the list as its body.
pub proof fn law_pushed_json_body_is_second_argument(args: Seq<Json>, cmd: HttpCommand)
    requires
        http_command_read(HttpEvent::PushJson, args, cmd),
    ensures
        cmd matches HttpCommand::PushJson { json, .. } && json == args[1],
{
}

/// Law: an integer field is out of range exactly when its value exceeds the
/// largest value of its type (255, 65535, 4294967295, `usize::MAX`); a
/// `u64` field is never out of range.
pub proof fn law_integer_field_ranges(opts: Json, key: Seq<char>, v: Json, n: u64)
    requires
        opts.spec_get(key) == Some(v),
        v.spec_as_u64() == Some(n),
    ensures
        field_problem(opts, key, FieldKind::U8) == (if n <= 255 {
            None
        } else {
            Some(FieldProblem::OutOfRange)
        }),
        field_problem(opts, key, FieldKind::U16) == (if n <= 65535 {
            None
        } else {
            Some(FieldProblem::OutOfRange)
        }),
        field_problem(opts, key, FieldKind::U32) == (if n <= 4294967295 {
            None
        } else {
            Some(FieldProblem::OutOfRange)
        }),
        field_problem(opts, key, FieldKind::Usize) == (if n <= usize::MAX {
            None
        } else {
            Some(FieldProblem::OutOfRange)
        }),
        field_problem(opts, key, FieldKind::U64) is None,
{
}

/// Law: an integer field whose member is absent, or is not an unsigned
/// integer, is missing whatever its type.
pub proof fn law_integer_field_missing(opts: Json, key: Seq<char>)
    requires
        !(opts.spec_get(key) matches Some(v) && v.spec_as_u64() is Some),
    ensures
        field_problem(opts, key, FieldKind::U8) == Some(FieldProblem::Missing),
        field_problem(opts, key, FieldKind::U16) == Some(FieldProblem::Missing),
        field_problem(opts, key, FieldKind::U32) == Some(FieldProblem::Missing),
        field_problem(opts, key, FieldKind::Usize) == Some(FieldProblem::Missing),
        field_problem(opts, key, FieldKind::U64) == Some(FieldProblem::Missing),
{
}

/// Law: each setting of the local socket that `uds_opts` reads is the member of the
/// options object whose key is the setting's own name, with its value.
pub proof fn law_uds_settings_by_name(o: UnixDomainSocketOpts, opts: Json)
    requires
        uds_opts_read(o, opts),
    ensures
        opts.spec_get("block_size_kb"@) matches Some(v) && v.spec_as_u64() matches Some(n) && n == o.block_size_kb,
        opts.spec_get("socket_path"@) matches Some(v) && v.spec_as_str() == Some(o.socket_path@),
        opts.spec_get("thread_limit"@) matches Some(v) && v.spec_as_u64() matches Some(n) && n == o.thread_limit,
{
}

/// Law: each setting of an HTTP/1.1 server that `http1_opts` reads is the member of the
/// options object whose key is the setting's own name, with its value.
pub proof fn law_http1_settings_by_name(o: Http1Opts, opts: Json)
    requires
        http1_opts_read(o, opts),
    ensures
        opts.spec_get("allow_empty_files"@) matches Some(v) && v.spec_as_bool() == Some(o.allow_empty_files),
        opts.spec_get("block_size_kb"@) matches Some(v) && v.spec_as_u64() matches Some(n) && n == o.block_size_kb,
        opts.spec_get("charset"@) matches Some(v) && v.spec_as_str() == Some(o.charset@),
        opts.spec_get("compression"@) matches Some(v) && v.spec_as_bool() == Some(o.compression),
        opts.spec_get("keep_alive"@) matches Some(v) && v.spec_as_u64() matches Some(n) && n == o.keep_alive,
        opts.spec_get("keep_extensions"@) matches Some(v) && v.spec_as_bool() == Some(o.keep_extensions),
        opts.spec_get("max_fields"@) matches Some(v) && v.spec_as_u64() matches Some(n) && n == o.max_fields,
        opts.spec_get("max_fields_size_total_mb"@) matches Some(v) && v.spec_as_u64() matches Some(n) && n == o.max_fields_size_total_mb,
        opts.spec_get("max_files"@) matches Some(v) && v.spec_as_u64() matches Some(n) && n == o.max_files,
        opts.spec_get("max_files_size_total_mb"@) matches Some(v) && v.spec_as_u64() matches Some(n) && n == o.max_files_size_total_mb,
        opts.spec_get("max_file_size_mb"@) matches Some(v) && v.spec_as_u64() matches Some(n) && n == o.max_file_size_mb,
        opts.spec_get("port"@) matches Some(v) && v.spec_as_u64() matches Some(n) && n == o.port,
        opts.spec_get("storage_path"@) matches Some(v) && v.spec_as_str() == Some(o.storage_path@),
        opts.spec_get("thread_limit"@) matches Some(v) && v.spec_as_u64() matches Some(n) && n == o.thread_limit,
{
}

/// Law: each setting of an HTTP/2 server that `http2_opts` reads is the member of the
/// options object whose key is the setting's own name, with its value.
pub proof fn law_http2_settings_by_name(o: Http2Opts, opts: Json)
    requires
        http2_opts_read(o, opts),
    ensures
        opts.spec_get("allow_empty_files"@) matches Some(v) && v.spec_as_bool() == Some(o.allow_empty_files),
        opts.spec_get("block_size_kb"@) matches Some(v) && v.spec_as_u64() matches Some(n) && n == o.block_size_kb,
        opts.spec_get("cert_pem"@) matches Some(v) && v.spec_as_str() == Some(o.cert_pem@),
        opts.spec_get("charset"@) matches Some(v) && v.spec_as_str() == Some(o.charset@),
        opts.spec_get("compression"@) matches Some(v) && v.spec_as_bool() == Some(o.compression),
        opts.spec_get("keep_alive"@) matches Some(v) && v.spec_as_u64() matches Some(n) && n == o.keep_alive,
        opts.spec_get("keep_extensions"@) matches Some(v) && v.spec_as_bool() == Some(o.keep_extensions),
        opts.spec_get("key_pem"@) matches Some(v) && v.spec_as_str() == Some(o.key_pem@),
        opts.spec_get("max_fields"@) matches Some(v) && v.spec_as_u64() matches Some(n) && n == o.max_fields,
        opts.spec_get("max_fields_size_total_mb"@) matches Some(v) && v.spec_as_u64() matches Some(n) && n == o.max_fields_size_total_mb,
        opts.spec_get("max_files"@) matches Some(v) && v.spec_as_u64() matches Some(n) && n == o.max_files,
        opts.spec_get("max_files_size_total_mb"@) matches Some(v) && v.spec_as_u64() matches Some(n) && n == o.max_files_size_total_mb,
        opts.spec_get("max_file_size_mb"@) matches Some(v) && v.spec_as_u64() matches Some(n) && n == o.max_file_size_mb,
        opts.spec_get("port"@) matches Some(v) && v.spec_as_u64() matches Some(n) && n == o.port,
        opts.spec_get("storage_path"@) matches Some(v) && v.spec_as_str() == Some(o.storage_path@),
        opts.spec_get("thread_limit"@) matches Some(v) && v.spec_as_u64() matches Some(n) && n == o.thread_limit,
{
}

/// Law: each setting of a WebSocket server that `ws_opts` reads is the member of the
/// options object whose key is the setting's own name, with its value.
pub proof fn law_ws_settings_by_name(o: WebSocketOpts, opts: Json)
    requires
        ws_opts_read(o, opts),
    ensures
        opts.spec_get("block_size_kb"@) matches Some(v) && v.spec_as_u64() matches Some(n) && n == o.block_size_kb,
        opts.spec_get("compression"@) matches Some(v) && v.spec_as_bool() == Some(o.compression),
        opts.spec_get("max_message_size_kb"@) matches Some(v) && v.spec_as_u64() matches Some(n) && n == o.max_message_size_kb,
        opts.spec_get("ping_timeout"@) matches Some(v) && v.spec_as_u64() matches Some(n) && n == o.ping_timeout,
        opts.spec_get("port"@) matches Some(v) && v.spec_as_u64() matches Some(n) && n == o.port,
        opts.spec_get("rate_limit"@) matches Some(v) && v.spec_as_u64() matches Some(n) && n == o.rate_limit,
        opts.spec_get("read_timeout"@) matches Some(v) && v.spec_as_u64() matches Some(n) && n == o.read_timeout,
        opts.spec_get("send_timeout"@) matches Some(v) && v.spec_as_u64() matches Some(n) && n == o.send_timeout,
        opts.spec_get("thread_limit"@) matches Some(v) && v.spec_as_u64() matches Some(n) && n == o.thread_limit,
{
}

/// Law: each setting of an HTTP/3 server that `http3_opts` reads is the member of the
/// options object whose key is the setting's own name, with its value.
pub proof fn law_http3_settings_by_name(o: Http3Opts, opts: Json)
    requires
        http3_opts_read(o, opts),
    ensures
        opts.spec_get("allow_empty_files"@) matches Some(v) && v.spec_as_bool() == Some(o.allow_empty_files),
        opts.spec_get("block_size_kb"@) matches Some(v) && v.spec_as_u64() matches Some(n) && n == o.block_size_kb,
        opts.spec_get("cert_pem"@) matches Some(v) && v.spec_as_str() == Some(o.cert_pem@),
        opts.spec_get("charset"@) matches Some(v) && v.spec_as_str() == Some(o.charset@),
        opts.spec_get("compression"@) matches Some(v) && v.spec_as_bool() == Some(o.compression),
        opts.spec_get("keep_alive"@) matches Some(v) && v.spec_as_u64() matches Some(n) && n == o.keep_alive,
        opts.spec_get("keep_extensions"@) matches Some(v) && v.spec_as_bool() == Some(o.keep_extensions),
        opts.spec_get("key_pem"@) matches Some(v) && v.spec_as_str() == Some(o.key_pem@),
        opts.spec_get("max_fields"@) matches Some(v) && v.spec_as_u64() matches Some(n) && n == o.max_fields,
        opts.spec_get("max_fields_size_total_mb"@) matches Some(v) && v.spec_as_u64() matches Some(n) && n == o.max_fields_size_total_mb,
        opts.spec_get("max_files"@) matches Some(v) && v.spec_as_u64() matches Some(n) && n == o.max_files,
        opts.spec_get("max_files_size_total_mb"@) matches Some(v) && v.spec_as_u64() matches Some(n) && n == o.max_files_size_total_mb,
        opts.spec_get("max_file_size_mb"@) matches Some(v) && v.spec_as_u64() matches Some(n) && n == o.max_file_size_mb,
        opts.spec_get("port"@) matches Some(v) && v.spec_as_u64() matches Some(n) && n == o.port,
        opts.spec_get("storage_path"@) matches Some(v) && v.spec_as_str() == Some(o.storage_path@),
        opts.spec_get("thread_limit"@) matches Some(v) && v.spec_as_u64() matches Some(n) && n == o.thread_limit,
{
}

/// Law: each setting of a WebTransport server that `wt_opts` reads is the member of the
/// options object whose key is the setting's own name, with its value.
pub proof fn law_wt_settings_by_name(o: WebTransportOpts, opts: Json)
    requires
        wt_opts_read(o, opts),
    ensures
        opts.spec_get("block_size_kb"@) matches Some(v) && v.spec_as_u64() matches Some(n) && n == o.block_size_kb,
        opts.spec_get("compression"@) matches Some(v) && v.spec_as_bool() == Some(o.compression),
        opts.spec_get("cert_pem"@) matches Some(v) && v.spec_as_str() == Some(o.cert_pem@),
        opts.spec_get("handshake_timeout"@) matches Some(v) && v.spec_as_u64() matches Some(n) && n == o.handshake_timeout,
        opts.spec_get("key_pem"@) matches Some(v) && v.spec_as_str() == Some(o.key_pem@),
        opts.spec_get("max_message_size_kb"@) matches Some(v) && v.spec_as_u64() matches Some(n) && n == o.max_message_size_kb,
        opts.spec_get("ping_timeout"@) matches Some(v) && v.spec_as_u64() matches Some(n) && n == o.ping_timeout,
        opts.spec_get("port"@) matches Some(v) && v.spec_as_u64() matches Some(n) && n == o.port,
        opts.spec_get("send_timeout"@) matches Some(v) && v.spec_as_u64() matches Some(n) && n == o.send_timeout,
        opts.spec_get("thread_limit"@) matches Some(v) && v.spec_as_u64() matches Some(n) && n == o.thread_limit,
{
}

} // verus!
