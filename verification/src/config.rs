//! The option records of the servers, read from the JSON object that the
//! JavaScript side passes when it creates a server.
use vstd::prelude::*;
use crate::json::Json;
use crate::options::{
    bool_field, check_fields, fields_readable, get_bool, get_str, get_u16, get_u32, get_u64, get_u8,
    get_usize, is_first_error, str_field, u64_field, field_problem, FieldError, FieldKind, FieldSpec,
};

verus! {

/// The settings of the local socket through which the JavaScript side
/// drives a server.
#[derive(Debug, Clone, PartialEq)]
pub struct UnixDomainSocketOpts {
    pub block_size_kb: usize,
    pub socket_path: String,
    pub thread_limit: u64,
}

/// The fields of the record of a local socket, in the order in which they are read.
pub open spec fn uds_fields() -> Seq<FieldSpec> {
    seq![
        FieldSpec { key: "block_size_kb", kind: FieldKind::Usize },
        FieldSpec { key: "socket_path", kind: FieldKind::Str },
        FieldSpec { key: "thread_limit", kind: FieldKind::U64 },
    ]
}

/// The list of `uds_fields`.
pub fn uds_field_list() -> (r: Vec<FieldSpec>)
    ensures
        r@ == uds_fields(),
{
    vec![
        FieldSpec { key: "block_size_kb", kind: FieldKind::Usize },
        FieldSpec { key: "socket_path", kind: FieldKind::Str },
        FieldSpec { key: "thread_limit", kind: FieldKind::U64 },
    ]
}

/// Each field of `o` holds the member of `opts` with the field's name.
pub open spec fn uds_opts_read(o: UnixDomainSocketOpts, opts: Json) -> bool {
    &&& u64_field(opts, "block_size_kb"@) == Some(o.block_size_kb as u64)
    &&& str_field(opts, "socket_path"@) == Some(o.socket_path@)
    &&& u64_field(opts, "thread_limit"@) == Some(o.thread_limit)
}

/// Reads the record; the error names the first field, in the order of
/// `uds_fields`, that is absent, of another type or out of range.
pub fn uds_opts(opts: &Json) -> (r: Result<UnixDomainSocketOpts, FieldError>)
    ensures
        match r {
            Ok(o) => fields_readable(*opts, uds_fields(), 3) && uds_opts_read(o, *opts),
            Err(e) => is_first_error(*opts, uds_fields(), e),
        },
{
    let fields = uds_field_list();
    match check_fields(opts, &fields) {
        Err(e) => Err(e),
        Ok(()) => {
            proof {
                let fs = uds_fields();
                assert(field_problem(*opts, fs[0].key@, fs[0].kind) is None);
                assert(field_problem(*opts, fs[1].key@, fs[1].kind) is None);
                assert(field_problem(*opts, fs[2].key@, fs[2].kind) is None);
            }
            Ok(UnixDomainSocketOpts {
                block_size_kb: get_usize(opts, "block_size_kb"),
                socket_path: get_str(opts, "socket_path"),
                thread_limit: get_u64(opts, "thread_limit"),
            })
        },
    }
}

/// The settings of an HTTP/1.1 server.
#[derive(Debug, Clone, PartialEq)]
pub struct Http1Opts {
    pub allow_empty_files: bool,
    pub block_size_kb: usize,
    pub charset: String,
    pub compression: bool,
    pub keep_alive: u8,
    pub keep_extensions: bool,
    pub max_fields: u32,
    pub max_fields_size_total_mb: usize,
    pub max_files: u32,
    pub max_files_size_total_mb: usize,
    pub max_file_size_mb: usize,
    pub port: u16,
    pub storage_path: String,
    pub thread_limit: u64,
}

/// The fields of the record of an HTTP/1.1 server, in the order in which they are read.
pub open spec fn http1_fields() -> Seq<FieldSpec> {
    seq![
        FieldSpec { key: "allow_empty_files", kind: FieldKind::Bool },
        FieldSpec { key: "block_size_kb", kind: FieldKind::Usize },
        FieldSpec { key: "charset", kind: FieldKind::Str },
        FieldSpec { key: "compression", kind: FieldKind::Bool },
        FieldSpec { key: "keep_alive", kind: FieldKind::U8 },
        FieldSpec { key: "keep_extensions", kind: FieldKind::Bool },
        FieldSpec { key: "max_fields", kind: FieldKind::U32 },
        FieldSpec { key: "max_fields_size_total_mb", kind: FieldKind::Usize },
        FieldSpec { key: "max_files", kind: FieldKind::U32 },
        FieldSpec { key: "max_files_size_total_mb", kind: FieldKind::Usize },
        FieldSpec { key: "max_file_size_mb", kind: FieldKind::Usize },
        FieldSpec { key: "port", kind: FieldKind::U16 },
        FieldSpec { key: "storage_path", kind: FieldKind::Str },
        FieldSpec { key: "thread_limit", kind: FieldKind::U64 },
    ]
}

/// The list of `http1_fields`.
pub fn http1_field_list() -> (r: Vec<FieldSpec>)
    ensures
        r@ == http1_fields(),
{
    vec![
        FieldSpec { key: "allow_empty_files", kind: FieldKind::Bool },
        FieldSpec { key: "block_size_kb", kind: FieldKind::Usize },
        FieldSpec { key: "charset", kind: FieldKind::Str },
        FieldSpec { key: "compression", kind: FieldKind::Bool },
        FieldSpec { key: "keep_alive", kind: FieldKind::U8 },
        FieldSpec { key: "keep_extensions", kind: FieldKind::Bool },
        FieldSpec { key: "max_fields", kind: FieldKind::U32 },
        FieldSpec { key: "max_fields_size_total_mb", kind: FieldKind::Usize },
        FieldSpec { key: "max_files", kind: FieldKind::U32 },
        FieldSpec { key: "max_files_size_total_mb", kind: FieldKind::Usize },
        FieldSpec { key: "max_file_size_mb", kind: FieldKind::Usize },
        FieldSpec { key: "port", kind: FieldKind::U16 },
        FieldSpec { key: "storage_path", kind: FieldKind::Str },
        FieldSpec { key: "thread_limit", kind: FieldKind::U64 },
    ]
}

/// Each field of `o` holds the member of `opts` with the field's name.
pub open spec fn http1_opts_read(o: Http1Opts, opts: Json) -> bool {
    &&& bool_field(opts, "allow_empty_files"@) == Some(o.allow_empty_files)
    &&& u64_field(opts, "block_size_kb"@) == Some(o.block_size_kb as u64)
    &&& str_field(opts, "charset"@) == Some(o.charset@)
    &&& bool_field(opts, "compression"@) == Some(o.compression)
    &&& u64_field(opts, "keep_alive"@) == Some(o.keep_alive as u64)
    &&& bool_field(opts, "keep_extensions"@) == Some(o.keep_extensions)
    &&& u64_field(opts, "max_fields"@) == Some(o.max_fields as u64)
    &&& u64_field(opts, "max_fields_size_total_mb"@) == Some(o.max_fields_size_total_mb as u64)
    &&& u64_field(opts, "max_files"@) == Some(o.max_files as u64)
    &&& u64_field(opts, "max_files_size_total_mb"@) == Some(o.max_files_size_total_mb as u64)
    &&& u64_field(opts, "max_file_size_mb"@) == Some(o.max_file_size_mb as u64)
    &&& u64_field(opts, "port"@) == Some(o.port as u64)
    &&& str_field(opts, "storage_path"@) == Some(o.storage_path@)
    &&& u64_field(opts, "thread_limit"@) == Some(o.thread_limit)
}

/// Reads the record; the error names the first field, in the order of
/// `http1_fields`, that is absent, of another type or out of range.
pub fn http1_opts(opts: &Json) -> (r: Result<Http1Opts, FieldError>)
    ensures
        match r {
            Ok(o) => fields_readable(*opts, http1_fields(), 14) && http1_opts_read(o, *opts),
            Err(e) => is_first_error(*opts, http1_fields(), e),
        },
{
    let fields = http1_field_list();
    match check_fields(opts, &fields) {
        Err(e) => Err(e),
        Ok(()) => {
            proof {
                let fs = http1_fields();
                assert(field_problem(*opts, fs[0].key@, fs[0].kind) is None);
                assert(field_problem(*opts, fs[1].key@, fs[1].kind) is None);
                assert(field_problem(*opts, fs[2].key@, fs[2].kind) is None);
                assert(field_problem(*opts, fs[3].key@, fs[3].kind) is None);
                assert(field_problem(*opts, fs[4].key@, fs[4].kind) is None);
                assert(field_problem(*opts, fs[5].key@, fs[5].kind) is None);
                assert(field_problem(*opts, fs[6].key@, fs[6].kind) is None);
                assert(field_problem(*opts, fs[7].key@, fs[7].kind) is None);
                assert(field_problem(*opts, fs[8].key@, fs[8].kind) is None);
                assert(field_problem(*opts, fs[9].key@, fs[9].kind) is None);
                assert(field_problem(*opts, fs[10].key@, fs[10].kind) is None);
                assert(field_problem(*opts, fs[11].key@, fs[11].kind) is None);
                assert(field_problem(*opts, fs[12].key@, fs[12].kind) is None);
                assert(field_problem(*opts, fs[13].key@, fs[13].kind) is None);
            }
            Ok(Http1Opts {
                allow_empty_files: get_bool(opts, "allow_empty_files"),
                block_size_kb: get_usize(opts, "block_size_kb"),
                charset: get_str(opts, "charset"),
                compression: get_bool(opts, "compression"),
                keep_alive: get_u8(opts, "keep_alive"),
                keep_extensions: get_bool(opts, "keep_extensions"),
                max_fields: get_u32(opts, "max_fields"),
                max_fields_size_total_mb: get_usize(opts, "max_fields_size_total_mb"),
                max_files: get_u32(opts, "max_files"),
                max_files_size_total_mb: get_usize(opts, "max_files_size_total_mb"),
                max_file_size_mb: get_usize(opts, "max_file_size_mb"),
                port: get_u16(opts, "port"),
                storage_path: get_str(opts, "storage_path"),
                thread_limit: get_u64(opts, "thread_limit"),
            })
        },
    }
}

/// The settings of an HTTP/2 server.
#[derive(Debug, Clone, PartialEq)]
pub struct Http2Opts {
    pub allow_empty_files: bool,
    pub block_size_kb: usize,
    pub cert_pem: String,
    pub charset: String,
    pub compression: bool,
    pub keep_alive: u8,
    pub keep_extensions: bool,
    pub key_pem: String,
    pub max_fields: u32,
    pub max_fields_size_total_mb: usize,
    pub max_files: u32,
    pub max_files_size_total_mb: usize,
    pub max_file_size_mb: usize,
    pub port: u16,
    pub storage_path: String,
    pub thread_limit: u64,
}

/// The fields of the record of an HTTP/2 server, in the order in which they are read.
pub open spec fn http2_fields() -> Seq<FieldSpec> {
    seq![
        FieldSpec { key: "allow_empty_files", kind: FieldKind::Bool },
        FieldSpec { key: "block_size_kb", kind: FieldKind::Usize },
        FieldSpec { key: "cert_pem", kind: FieldKind::Str },
        FieldSpec { key: "charset", kind: FieldKind::Str },
        FieldSpec { key: "compression", kind: FieldKind::Bool },
        FieldSpec { key: "keep_alive", kind: FieldKind::U8 },
        FieldSpec { key: "keep_extensions", kind: FieldKind::Bool },
        FieldSpec { key: "key_pem", kind: FieldKind::Str },
        FieldSpec { key: "max_fields", kind: FieldKind::U32 },
        FieldSpec { key: "max_fields_size_total_mb", kind: FieldKind::Usize },
        FieldSpec { key: "max_files", kind: FieldKind::U32 },
        FieldSpec { key: "max_files_size_total_mb", kind: FieldKind::Usize },
        FieldSpec { key: "max_file_size_mb", kind: FieldKind::Usize },
        FieldSpec { key: "port", kind: FieldKind::U16 },
        FieldSpec { key: "storage_path", kind: FieldKind::Str },
        FieldSpec { key: "thread_limit", kind: FieldKind::U64 },
    ]
}

/// The list of `http2_fields`.
pub fn http2_field_list() -> (r: Vec<FieldSpec>)
    ensures
        r@ == http2_fields(),
{
    vec![
        FieldSpec { key: "allow_empty_files", kind: FieldKind::Bool },
        FieldSpec { key: "block_size_kb", kind: FieldKind::Usize },
        FieldSpec { key: "cert_pem", kind: FieldKind::Str },
        FieldSpec { key: "charset", kind: FieldKind::Str },
        FieldSpec { key: "compression", kind: FieldKind::Bool },
        FieldSpec { key: "keep_alive", kind: FieldKind::U8 },
        FieldSpec { key: "keep_extensions", kind: FieldKind::Bool },
        FieldSpec { key: "key_pem", kind: FieldKind::Str },
        FieldSpec { key: "max_fields", kind: FieldKind::U32 },
        FieldSpec { key: "max_fields_size_total_mb", kind: FieldKind::Usize },
        FieldSpec { key: "max_files", kind: FieldKind::U32 },
        FieldSpec { key: "max_files_size_total_mb", kind: FieldKind::Usize },
        FieldSpec { key: "max_file_size_mb", kind: FieldKind::Usize },
        FieldSpec { key: "port", kind: FieldKind::U16 },
        FieldSpec { key: "storage_path", kind: FieldKind::Str },
        FieldSpec { key: "thread_limit", kind: FieldKind::U64 },
    ]
}

/// Each field of `o` holds the member of `opts` with the field's name.
pub open spec fn http2_opts_read(o: Http2Opts, opts: Json) -> bool {
    &&& bool_field(opts, "allow_empty_files"@) == Some(o.allow_empty_files)
    &&& u64_field(opts, "block_size_kb"@) == Some(o.block_size_kb as u64)
    &&& str_field(opts, "cert_pem"@) == Some(o.cert_pem@)
    &&& str_field(opts, "charset"@) == Some(o.charset@)
    &&& bool_field(opts, "compression"@) == Some(o.compression)
    &&& u64_field(opts, "keep_alive"@) == Some(o.keep_alive as u64)
    &&& bool_field(opts, "keep_extensions"@) == Some(o.keep_extensions)
    &&& str_field(opts, "key_pem"@) == Some(o.key_pem@)
    &&& u64_field(opts, "max_fields"@) == Some(o.max_fields as u64)
    &&& u64_field(opts, "max_fields_size_total_mb"@) == Some(o.max_fields_size_total_mb as u64)
    &&& u64_field(opts, "max_files"@) == Some(o.max_files as u64)
    &&& u64_field(opts, "max_files_size_total_mb"@) == Some(o.max_files_size_total_mb as u64)
    &&& u64_field(opts, "max_file_size_mb"@) == Some(o.max_file_size_mb as u64)
    &&& u64_field(opts, "port"@) == Some(o.port as u64)
    &&& str_field(opts, "storage_path"@) == Some(o.storage_path@)
    &&& u64_field(opts, "thread_limit"@) == Some(o.thread_limit)
}

/// Reads the record; the error names the first field, in the order of
/// `http2_fields`, that is absent, of another type or out of range.
pub fn http2_opts(opts: &Json) -> (r: Result<Http2Opts, FieldError>)
    ensures
        match r {
            Ok(o) => fields_readable(*opts, http2_fields(), 16) && http2_opts_read(o, *opts),
            Err(e) => is_first_error(*opts, http2_fields(), e),
        },
{
    let fields = http2_field_list();
    match check_fields(opts, &fields) {
        Err(e) => Err(e),
        Ok(()) => {
            proof {
                let fs = http2_fields();
                assert(field_problem(*opts, fs[0].key@, fs[0].kind) is None);
                assert(field_problem(*opts, fs[1].key@, fs[1].kind) is None);
                assert(field_problem(*opts, fs[2].key@, fs[2].kind) is None);
                assert(field_problem(*opts, fs[3].key@, fs[3].kind) is None);
                assert(field_problem(*opts, fs[4].key@, fs[4].kind) is None);
                assert(field_problem(*opts, fs[5].key@, fs[5].kind) is None);
                assert(field_problem(*opts, fs[6].key@, fs[6].kind) is None);
                assert(field_problem(*opts, fs[7].key@, fs[7].kind) is None);
                assert(field_problem(*opts, fs[8].key@, fs[8].kind) is None);
                assert(field_problem(*opts, fs[9].key@, fs[9].kind) is None);
                assert(field_problem(*opts, fs[10].key@, fs[10].kind) is None);
                assert(field_problem(*opts, fs[11].key@, fs[11].kind) is None);
                assert(field_problem(*opts, fs[12].key@, fs[12].kind) is None);
                assert(field_problem(*opts, fs[13].key@, fs[13].kind) is None);
                assert(field_problem(*opts, fs[14].key@, fs[14].kind) is None);
                assert(field_problem(*opts, fs[15].key@, fs[15].kind) is None);
            }
            Ok(Http2Opts {
                allow_empty_files: get_bool(opts, "allow_empty_files"),
                block_size_kb: get_usize(opts, "block_size_kb"),
                cert_pem: get_str(opts, "cert_pem"),
                charset: get_str(opts, "charset"),
                compression: get_bool(opts, "compression"),
                keep_alive: get_u8(opts, "keep_alive"),
                keep_extensions: get_bool(opts, "keep_extensions"),
                key_pem: get_str(opts, "key_pem"),
                max_fields: get_u32(opts, "max_fields"),
                max_fields_size_total_mb: get_usize(opts, "max_fields_size_total_mb"),
                max_files: get_u32(opts, "max_files"),
                max_files_size_total_mb: get_usize(opts, "max_files_size_total_mb"),
                max_file_size_mb: get_usize(opts, "max_file_size_mb"),
                port: get_u16(opts, "port"),
                storage_path: get_str(opts, "storage_path"),
                thread_limit: get_u64(opts, "thread_limit"),
            })
        },
    }
}

/// The settings of a WebSocket server.
#[derive(Debug, Clone, PartialEq)]
pub struct WebSocketOpts {
    pub block_size_kb: usize,
    pub compression: bool,
    pub max_message_size_kb: u64,
    pub ping_timeout: u64,
    pub port: u16,
    pub rate_limit: u64,
    pub read_timeout: u64,
    pub send_timeout: u64,
    pub thread_limit: u64,
}

/// The fields of the record of a WebSocket server, in the order in which they are read.
pub open spec fn ws_fields() -> Seq<FieldSpec> {
    seq![
        FieldSpec { key: "block_size_kb", kind: FieldKind::Usize },
        FieldSpec { key: "compression", kind: FieldKind::Bool },
        FieldSpec { key: "max_message_size_kb", kind: FieldKind::U64 },
        FieldSpec { key: "ping_timeout", kind: FieldKind::U64 },
        FieldSpec { key: "port", kind: FieldKind::U16 },
        FieldSpec { key: "rate_limit", kind: FieldKind::U64 },
        FieldSpec { key: "read_timeout", kind: FieldKind::U64 },
        FieldSpec { key: "send_timeout", kind: FieldKind::U64 },
        FieldSpec { key: "thread_limit", kind: FieldKind::U64 },
    ]
}

/// The list of `ws_fields`.
pub fn ws_field_list() -> (r: Vec<FieldSpec>)
    ensures
        r@ == ws_fields(),
{
    vec![
        FieldSpec { key: "block_size_kb", kind: FieldKind::Usize },
        FieldSpec { key: "compression", kind: FieldKind::Bool },
        FieldSpec { key: "max_message_size_kb", kind: FieldKind::U64 },
        FieldSpec { key: "ping_timeout", kind: FieldKind::U64 },
        FieldSpec { key: "port", kind: FieldKind::U16 },
        FieldSpec { key: "rate_limit", kind: FieldKind::U64 },
        FieldSpec { key: "read_timeout", kind: FieldKind::U64 },
        FieldSpec { key: "send_timeout", kind: FieldKind::U64 },
        FieldSpec { key: "thread_limit", kind: FieldKind::U64 },
    ]
}

/// Each field of `o` holds the member of `opts` with the field's name.
pub open spec fn ws_opts_read(o: WebSocketOpts, opts: Json) -> bool {
    &&& u64_field(opts, "block_size_kb"@) == Some(o.block_size_kb as u64)
    &&& bool_field(opts, "compression"@) == Some(o.compression)
    &&& u64_field(opts, "max_message_size_kb"@) == Some(o.max_message_size_kb)
    &&& u64_field(opts, "ping_timeout"@) == Some(o.ping_timeout)
    &&& u64_field(opts, "port"@) == Some(o.port as u64)
    &&& u64_field(opts, "rate_limit"@) == Some(o.rate_limit)
    &&& u64_field(opts, "read_timeout"@) == Some(o.read_timeout)
    &&& u64_field(opts, "send_timeout"@) == Some(o.send_timeout)
    &&& u64_field(opts, "thread_limit"@) == Some(o.thread_limit)
}

/// Reads the record; the error names the first field, in the order of
/// `ws_fields`, that is absent, of another type or out of range.
pub fn ws_opts(opts: &Json) -> (r: Result<WebSocketOpts, FieldError>)
    ensures
        match r {
            Ok(o) => fields_readable(*opts, ws_fields(), 9) && ws_opts_read(o, *opts),
            Err(e) => is_first_error(*opts, ws_fields(), e),
        },
{
    let fields = ws_field_list();
    match check_fields(opts, &fields) {
        Err(e) => Err(e),
        Ok(()) => {
            proof {
                let fs = ws_fields();
                assert(field_problem(*opts, fs[0].key@, fs[0].kind) is None);
                assert(field_problem(*opts, fs[1].key@, fs[1].kind) is None);
                assert(field_problem(*opts, fs[2].key@, fs[2].kind) is None);
                assert(field_problem(*opts, fs[3].key@, fs[3].kind) is None);
                assert(field_problem(*opts, fs[4].key@, fs[4].kind) is None);
                assert(field_problem(*opts, fs[5].key@, fs[5].kind) is None);
                assert(field_problem(*opts, fs[6].key@, fs[6].kind) is None);
                assert(field_problem(*opts, fs[7].key@, fs[7].kind) is None);
                assert(field_problem(*opts, fs[8].key@, fs[8].kind) is None);
            }
            Ok(WebSocketOpts {
                block_size_kb: get_usize(opts, "block_size_kb"),
                compression: get_bool(opts, "compression"),
                max_message_size_kb: get_u64(opts, "max_message_size_kb"),
                ping_timeout: get_u64(opts, "ping_timeout"),
                port: get_u16(opts, "port"),
                rate_limit: get_u64(opts, "rate_limit"),
                read_timeout: get_u64(opts, "read_timeout"),
                send_timeout: get_u64(opts, "send_timeout"),
                thread_limit: get_u64(opts, "thread_limit"),
            })
        },
    }
}

/// The settings of an HTTP/3 server.
#[derive(Debug, Clone, PartialEq)]
pub struct Http3Opts {
    pub allow_empty_files: bool,
    pub block_size_kb: usize,
    pub cert_pem: String,
    pub charset: String,
    pub compression: bool,
    pub keep_alive: u8,
    pub keep_extensions: bool,
    pub key_pem: String,
    pub max_fields: u32,
    pub max_fields_size_total_mb: usize,
    pub max_files: u32,
    pub max_files_size_total_mb: usize,
    pub max_file_size_mb: usize,
    pub port: u16,
    pub storage_path: String,
    pub thread_limit: u64,
}

/// The fields of the record of an HTTP/3 server, in the order in which they are read.
pub open spec fn http3_fields() -> Seq<FieldSpec> {
    seq![
        FieldSpec { key: "allow_empty_files", kind: FieldKind::Bool },
        FieldSpec { key: "block_size_kb", kind: FieldKind::Usize },
        FieldSpec { key: "cert_pem", kind: FieldKind::Str },
        FieldSpec { key: "charset", kind: FieldKind::Str },
        FieldSpec { key: "compression", kind: FieldKind::Bool },
        FieldSpec { key: "keep_alive", kind: FieldKind::U8 },
        FieldSpec { key: "keep_extensions", kind: FieldKind::Bool },
        FieldSpec { key: "key_pem", kind: FieldKind::Str },
        FieldSpec { key: "max_fields", kind: FieldKind::U32 },
        FieldSpec { key: "max_fields_size_total_mb", kind: FieldKind::Usize },
        FieldSpec { key: "max_files", kind: FieldKind::U32 },
        FieldSpec { key: "max_files_size_total_mb", kind: FieldKind::Usize },
        FieldSpec { key: "max_file_size_mb", kind: FieldKind::Usize },
        FieldSpec { key: "port", kind: FieldKind::U16 },
        FieldSpec { key: "storage_path", kind: FieldKind::Str },
        FieldSpec { key: "thread_limit", kind: FieldKind::U64 },
    ]
}

/// The list of `http3_fields`.
pub fn http3_field_list() -> (r: Vec<FieldSpec>)
    ensures
        r@ == http3_fields(),
{
    vec![
        FieldSpec { key: "allow_empty_files", kind: FieldKind::Bool },
        FieldSpec { key: "block_size_kb", kind: FieldKind::Usize },
        FieldSpec { key: "cert_pem", kind: FieldKind::Str },
        FieldSpec { key: "charset", kind: FieldKind::Str },
        FieldSpec { key: "compression", kind: FieldKind::Bool },
        FieldSpec { key: "keep_alive", kind: FieldKind::U8 },
        FieldSpec { key: "keep_extensions", kind: FieldKind::Bool },
        FieldSpec { key: "key_pem", kind: FieldKind::Str },
        FieldSpec { key: "max_fields", kind: FieldKind::U32 },
        FieldSpec { key: "max_fields_size_total_mb", kind: FieldKind::Usize },
        FieldSpec { key: "max_files", kind: FieldKind::U32 },
        FieldSpec { key: "max_files_size_total_mb", kind: FieldKind::Usize },
        FieldSpec { key: "max_file_size_mb", kind: FieldKind::Usize },
        FieldSpec { key: "port", kind: FieldKind::U16 },
        FieldSpec { key: "storage_path", kind: FieldKind::Str },
        FieldSpec { key: "thread_limit", kind: FieldKind::U64 },
    ]
}

/// Each field of `o` holds the member of `opts` with the field's name.
pub open spec fn http3_opts_read(o: Http3Opts, opts: Json) -> bool {
    &&& bool_field(opts, "allow_empty_files"@) == Some(o.allow_empty_files)
    &&& u64_field(opts, "block_size_kb"@) == Some(o.block_size_kb as u64)
    &&& str_field(opts, "cert_pem"@) == Some(o.cert_pem@)
    &&& str_field(opts, "charset"@) == Some(o.charset@)
    &&& bool_field(opts, "compression"@) == Some(o.compression)
    &&& u64_field(opts, "keep_alive"@) == Some(o.keep_alive as u64)
    &&& bool_field(opts, "keep_extensions"@) == Some(o.keep_extensions)
    &&& str_field(opts, "key_pem"@) == Some(o.key_pem@)
    &&& u64_field(opts, "max_fields"@) == Some(o.max_fields as u64)
    &&& u64_field(opts, "max_fields_size_total_mb"@) == Some(o.max_fields_size_total_mb as u64)
    &&& u64_field(opts, "max_files"@) == Some(o.max_files as u64)
    &&& u64_field(opts, "max_files_size_total_mb"@) == Some(o.max_files_size_total_mb as u64)
    &&& u64_field(opts, "max_file_size_mb"@) == Some(o.max_file_size_mb as u64)
    &&& u64_field(opts, "port"@) == Some(o.port as u64)
    &&& str_field(opts, "storage_path"@) == Some(o.storage_path@)
    &&& u64_field(opts, "thread_limit"@) == Some(o.thread_limit)
}

/// Reads the record; the error names the first field, in the order of
/// `http3_fields`, that is absent, of another type or out of range.
pub fn http3_opts(opts: &Json) -> (r: Result<Http3Opts, FieldError>)
    ensures
        match r {
            Ok(o) => fields_readable(*opts, http3_fields(), 16) && http3_opts_read(o, *opts),
            Err(e) => is_first_error(*opts, http3_fields(), e),
        },
{
    let fields = http3_field_list();
    match check_fields(opts, &fields) {
        Err(e) => Err(e),
        Ok(()) => {
            proof {
                let fs = http3_fields();
                assert(field_problem(*opts, fs[0].key@, fs[0].kind) is None);
                assert(field_problem(*opts, fs[1].key@, fs[1].kind) is None);
                assert(field_problem(*opts, fs[2].key@, fs[2].kind) is None);
                assert(field_problem(*opts, fs[3].key@, fs[3].kind) is None);
                assert(field_problem(*opts, fs[4].key@, fs[4].kind) is None);
                assert(field_problem(*opts, fs[5].key@, fs[5].kind) is None);
                assert(field_problem(*opts, fs[6].key@, fs[6].kind) is None);
                assert(field_problem(*opts, fs[7].key@, fs[7].kind) is None);
                assert(field_problem(*opts, fs[8].key@, fs[8].kind) is None);
                assert(field_problem(*opts, fs[9].key@, fs[9].kind) is None);
                assert(field_problem(*opts, fs[10].key@, fs[10].kind) is None);
                assert(field_problem(*opts, fs[11].key@, fs[11].kind) is None);
                assert(field_problem(*opts, fs[12].key@, fs[12].kind) is None);
                assert(field_problem(*opts, fs[13].key@, fs[13].kind) is None);
                assert(field_problem(*opts, fs[14].key@, fs[14].kind) is None);
                assert(field_problem(*opts, fs[15].key@, fs[15].kind) is None);
            }
            Ok(Http3Opts {
                allow_empty_files: get_bool(opts, "allow_empty_files"),
                block_size_kb: get_usize(opts, "block_size_kb"),
                cert_pem: get_str(opts, "cert_pem"),
                charset: get_str(opts, "charset"),
                compression: get_bool(opts, "compression"),
                keep_alive: get_u8(opts, "keep_alive"),
                keep_extensions: get_bool(opts, "keep_extensions"),
                key_pem: get_str(opts, "key_pem"),
                max_fields: get_u32(opts, "max_fields"),
                max_fields_size_total_mb: get_usize(opts, "max_fields_size_total_mb"),
                max_files: get_u32(opts, "max_files"),
                max_files_size_total_mb: get_usize(opts, "max_files_size_total_mb"),
                max_file_size_mb: get_usize(opts, "max_file_size_mb"),
                port: get_u16(opts, "port"),
                storage_path: get_str(opts, "storage_path"),
                thread_limit: get_u64(opts, "thread_limit"),
            })
        },
    }
}

/// The settings of a WebTransport server.
#[derive(Debug, Clone, PartialEq)]
pub struct WebTransportOpts {
    pub block_size_kb: usize,
    pub compression: bool,
    pub cert_pem: String,
    pub handshake_timeout: u64,
    pub key_pem: String,
    pub max_message_size_kb: u64,
    pub ping_timeout: u64,
    pub port: u16,
    pub send_timeout: u64,
    pub thread_limit: u64,
}

/// The fields of the record of a WebTransport server, in the order in which they are read.
pub open spec fn wt_fields() -> Seq<FieldSpec> {
    seq![
        FieldSpec { key: "block_size_kb", kind: FieldKind::Usize },
        FieldSpec { key: "compression", kind: FieldKind::Bool },
        FieldSpec { key: "cert_pem", kind: FieldKind::Str },
        FieldSpec { key: "handshake_timeout", kind: FieldKind::U64 },
        FieldSpec { key: "key_pem", kind: FieldKind::Str },
        FieldSpec { key: "max_message_size_kb", kind: FieldKind::U64 },
        FieldSpec { key: "ping_timeout", kind: FieldKind::U64 },
        FieldSpec { key: "port", kind: FieldKind::U16 },
        FieldSpec { key: "send_timeout", kind: FieldKind::U64 },
        FieldSpec { key: "thread_limit", kind: FieldKind::U64 },
    ]
}

/// The list of `wt_fields`.
pub fn wt_field_list() -> (r: Vec<FieldSpec>)
    ensures
        r@ == wt_fields(),
{
    vec![
        FieldSpec { key: "block_size_kb", kind: FieldKind::Usize },
        FieldSpec { key: "compression", kind: FieldKind::Bool },
        FieldSpec { key: "cert_pem", kind: FieldKind::Str },
        FieldSpec { key: "handshake_timeout", kind: FieldKind::U64 },
        FieldSpec { key: "key_pem", kind: FieldKind::Str },
        FieldSpec { key: "max_message_size_kb", kind: FieldKind::U64 },
        FieldSpec { key: "ping_timeout", kind: FieldKind::U64 },
        FieldSpec { key: "port", kind: FieldKind::U16 },
        FieldSpec { key: "send_timeout", kind: FieldKind::U64 },
        FieldSpec { key: "thread_limit", kind: FieldKind::U64 },
    ]
}

/// Each field of `o` holds the member of `opts` with the field's name.
pub open spec fn wt_opts_read(o: WebTransportOpts, opts: Json) -> bool {
    &&& u64_field(opts, "block_size_kb"@) == Some(o.block_size_kb as u64)
    &&& bool_field(opts, "compression"@) == Some(o.compression)
    &&& str_field(opts, "cert_pem"@) == Some(o.cert_pem@)
    &&& u64_field(opts, "handshake_timeout"@) == Some(o.handshake_timeout)
    &&& str_field(opts, "key_pem"@) == Some(o.key_pem@)
    &&& u64_field(opts, "max_message_size_kb"@) == Some(o.max_message_size_kb)
    &&& u64_field(opts, "ping_timeout"@) == Some(o.ping_timeout)
    &&& u64_field(opts, "port"@) == Some(o.port as u64)
    &&& u64_field(opts, "send_timeout"@) == Some(o.send_timeout)
    &&& u64_field(opts, "thread_limit"@) == Some(o.thread_limit)
}

/// Reads the record; the error names the first field, in the order of
/// `wt_fields`, that is absent, of another type or out of range.
pub fn wt_opts(opts: &Json) -> (r: Result<WebTransportOpts, FieldError>)
    ensures
        match r {
            Ok(o) => fields_readable(*opts, wt_fields(), 10) && wt_opts_read(o, *opts),
            Err(e) => is_first_error(*opts, wt_fields(), e),
        },
{
    let fields = wt_field_list();
    match check_fields(opts, &fields) {
        Err(e) => Err(e),
        Ok(()) => {
            proof {
                let fs = wt_fields();
                assert(field_problem(*opts, fs[0].key@, fs[0].kind) is None);
                assert(field_problem(*opts, fs[1].key@, fs[1].kind) is None);
                assert(field_problem(*opts, fs[2].key@, fs[2].kind) is None);
                assert(field_problem(*opts, fs[3].key@, fs[3].kind) is None);
                assert(field_problem(*opts, fs[4].key@, fs[4].kind) is None);
                assert(field_problem(*opts, fs[5].key@, fs[5].kind) is None);
                assert(field_problem(*opts, fs[6].key@, fs[6].kind) is None);
                assert(field_problem(*opts, fs[7].key@, fs[7].kind) is None);
                assert(field_problem(*opts, fs[8].key@, fs[8].kind) is None);
                assert(field_problem(*opts, fs[9].key@, fs[9].kind) is None);
            }
            Ok(WebTransportOpts {
                block_size_kb: get_usize(opts, "block_size_kb"),
                compression: get_bool(opts, "compression"),
                cert_pem: get_str(opts, "cert_pem"),
                handshake_timeout: get_u64(opts, "handshake_timeout"),
                key_pem: get_str(opts, "key_pem"),
                max_message_size_kb: get_u64(opts, "max_message_size_kb"),
                ping_timeout: get_u64(opts, "ping_timeout"),
                port: get_u16(opts, "port"),
                send_timeout: get_u64(opts, "send_timeout"),
                thread_limit: get_u64(opts, "thread_limit"),
            })
        },
    }
}

} // verus!
