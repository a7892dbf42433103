//! Creating a server from the options that the JavaScript side passes: the
//! id it gets, and the settings of its socket and of the server itself.
use vstd::prelude::*;
use vstd::string::*;
use crate::json::Json;
use crate::options::{fields_readable, is_first_error, FieldError};
use crate::config::{
    http1_fields, http1_opts, http1_opts_read, http2_fields, http2_opts, http2_opts_read,
    http3_fields, http3_opts, http3_opts_read, uds_fields, uds_opts, uds_opts_read, ws_fields,
    ws_opts, ws_opts_read, wt_fields, wt_opts, wt_opts_read, Http1Opts, Http2Opts, Http3Opts,
    UnixDomainSocketOpts, WebSocketOpts, WebTransportOpts,
};
use crate::commands::{prefix, prefix_text, Protocol};
use crate::registry::Instances;
use crate::parse::{parse_options, parsed_options};

verus! {

/// The settings of a server of any of the protocols.
#[derive(Debug, Clone, PartialEq)]
pub enum ServerOpts {
    Http1(Http1Opts),
    Http2(Http2Opts),
    WebSocket(WebSocketOpts),
    Http3(Http3Opts),
    WebTransport(WebTransportOpts),
}

/// `o` holds the settings that `opts` gives a server of protocol `p`.
pub open spec fn server_opts_read(p: Protocol, o: ServerOpts, opts: Json) -> bool {
    match p {
        Protocol::Http1 => o matches ServerOpts::Http1(s) && fields_readable(
            opts,
            http1_fields(),
            http1_fields().len() as int,
        ) && http1_opts_read(s, opts),
        Protocol::Http2 => o matches ServerOpts::Http2(s) && fields_readable(
            opts,
            http2_fields(),
            http2_fields().len() as int,
        ) && http2_opts_read(s, opts),
        Protocol::WebSocket => o matches ServerOpts::WebSocket(s) && fields_readable(
            opts,
            ws_fields(),
            ws_fields().len() as int,
        ) && ws_opts_read(s, opts),
        Protocol::Http3 => o matches ServerOpts::Http3(s) && fields_readable(
            opts,
            http3_fields(),
            http3_fields().len() as int,
        ) && http3_opts_read(s, opts),
        Protocol::WebTransport => o matches ServerOpts::WebTransport(s) && fields_readable(
            opts,
            wt_fields(),
            wt_fields().len() as int,
        ) && wt_opts_read(s, opts),
    }
}

/// `e` names the first field that keeps `opts` from giving a server of
/// protocol `p` its settings.
pub open spec fn server_first_error(p: Protocol, opts: Json, e: FieldError) -> bool {
    match p {
        Protocol::Http1 => is_first_error(opts, http1_fields(), e),
        Protocol::Http2 => is_first_error(opts, http2_fields(), e),
        Protocol::WebSocket => is_first_error(opts, ws_fields(), e),
        Protocol::Http3 => is_first_error(opts, http3_fields(), e),
        Protocol::WebTransport => is_first_error(opts, wt_fields(), e),
    }
}

/// Reads the settings of a server of protocol `p`.
pub fn server_opts(p: Protocol, opts: &Json) -> (r: Result<ServerOpts, FieldError>)
    ensures
        match r {
            Ok(o) => server_opts_read(p, o, *opts),
            Err(e) => server_first_error(p, *opts, e),
        },
{
    match p {
        Protocol::Http1 => match http1_opts(opts) {
            Ok(o) => Ok(ServerOpts::Http1(o)),
            Err(e) => Err(e),
        },
        Protocol::Http2 => match http2_opts(opts) {
            Ok(o) => Ok(ServerOpts::Http2(o)),
            Err(e) => Err(e),
        },
        Protocol::WebSocket => match ws_opts(opts) {
            Ok(o) => Ok(ServerOpts::WebSocket(o)),
            Err(e) => Err(e),
        },
        Protocol::Http3 => match http3_opts(opts) {
            Ok(o) => Ok(ServerOpts::Http3(o)),
            Err(e) => Err(e),
        },
        Protocol::WebTransport => match wt_opts(opts) {
            Ok(o) => Ok(ServerOpts::WebTransport(o)),
            Err(e) => Err(e),
        },
    }
}

/// What creating a server comes to. A field error stops the creation once
/// the id is taken (and, for a server field, once the socket is set up);
/// the binding reports it and stops there.
#[derive(Debug, Clone, PartialEq)]
pub enum CreatePlan {
    /// The options are not JSON; no id is taken and the result is 0.
    InvalidJson,
    /// The socket's settings cannot be read.
    SocketFieldError { id: u64, error: FieldError },
    /// The socket's settings are read, the server's cannot be.
    ServerFieldError { id: u64, socket: UnixDomainSocketOpts, error: FieldError },
    /// Everything is read; the server gets `id`.
    Ready { id: u64, socket: UnixDomainSocketOpts, server: ServerOpts },
}

/// Plans the creation of a server of protocol `p` from the options, as
/// parsed (`None` when they are not JSON): takes the next id, then reads the
/// socket's settings, then the server's.
pub fn plan_create<U, S>(instances: &mut Instances<U, S>, p: Protocol, parsed: Option<Json>) -> (r:
    CreatePlan)
    requires
        old(instances).wf(),
        parsed is Some ==> old(instances).last_id() < u64::MAX,
    ensures
        final(instances).wf(),
        final(instances).sockets() == old(instances).sockets(),
        final(instances).servers() == old(instances).servers(),
        match parsed {
            None => r is InvalidJson && final(instances).last_id() == old(instances).last_id(),
            Some(opts) => {
                &&& final(instances).last_id() == old(instances).last_id() + 1
                &&& match r {
                    CreatePlan::SocketFieldError { id, error } => id == final(instances).last_id() && is_first_error(opts, uds_fields(), error),
                    CreatePlan::ServerFieldError { id, socket, error } => id == final(instances).last_id() && fields_readable(opts, uds_fields(), 3) && uds_opts_read(
                        socket,
                        opts,
                    ) && server_first_error(p, opts, error),
                    CreatePlan::Ready { id, socket, server } => id == final(instances).last_id()
                        && fields_readable(opts, uds_fields(), 3) && uds_opts_read(socket, opts)
                        && server_opts_read(p, server, opts),
                    CreatePlan::InvalidJson => false,
                }
            },
        },
{
    match parsed {
        None => CreatePlan::InvalidJson,
        Some(opts) => {
            let id = instances.next_id();
            match uds_opts(&opts) {
                Err(error) => CreatePlan::SocketFieldError { id, error },
                Ok(socket) => match server_opts(p, &opts) {
                    Err(error) => CreatePlan::ServerFieldError { id, socket, error },
                    Ok(server) => CreatePlan::Ready { id, socket, server },
                },
            }
        },
    }
}

/// Plans the creation of a server of protocol `p` from the options text
/// that the JavaScript side passes: parses it, then plans as `plan_create`
/// does. A text that is not JSON takes no id.
pub fn plan_create_text<U, S>(instances: &mut Instances<U, S>, p: Protocol, text: &str) -> (r:
    CreatePlan)
    requires
        old(instances).wf(),
        old(instances).last_id() < u64::MAX,
    ensures
        final(instances).wf(),
        final(instances).sockets() == old(instances).sockets(),
        final(instances).servers() == old(instances).servers(),
        (r is InvalidJson) <==> parsed_options(text@) is None,
        match parsed_options(text@) {
            None => final(instances).last_id() == old(instances).last_id(),
            Some(opts) => {
                &&& final(instances).last_id() == old(instances).last_id() + 1
                &&& match r {
                    CreatePlan::SocketFieldError { id, error } => id == final(instances).last_id()
                        && is_first_error(opts, uds_fields(), error),
                    CreatePlan::ServerFieldError { id, socket, error } => id == final(
                        instances).last_id() && fields_readable(opts, uds_fields(), 3)
                        && uds_opts_read(socket, opts) && server_first_error(p, opts, error),
                    CreatePlan::Ready { id, socket, server } => id == final(instances).last_id()
                        && fields_readable(opts, uds_fields(), 3) && uds_opts_read(socket, opts)
                        && server_opts_read(p, server, opts),
                    CreatePlan::InvalidJson => false,
                }
            },
        },
{
    let parsed = parse_options(text);
    plan_create(instances, p, parsed)
}

/// The message printed when the options of a new server are not JSON.
pub open spec fn invalid_options_text(p: Protocol) -> Seq<char> {
    "[Arnelify Server]: NEON error in "@ + prefix_text(p) + "_create: Invalid JSON in 'c_opts'."@
}

/// The message printed when the options of a new server are not JSON.
pub fn invalid_options_message(p: Protocol) -> (s: String)
    ensures
        s@ == invalid_options_text(p),
{
    let mut s = String::from_str("[Arnelify Server]: NEON error in ");
    s.append(prefix(p));
    s.append("_create: Invalid JSON in 'c_opts'.");
    s
}

/// The protocol in whose socket registry a logger set up for protocol `p`
/// is installed on the socket: `p`'s own, so that each server and its
/// socket log through the logger set up for them.
pub open spec fn logger_socket_protocol_spec(p: Protocol) -> Protocol {
    p
}

/// The protocol in whose socket registry a logger set up for protocol `p`
/// is installed on the socket.
pub fn logger_socket_protocol(p: Protocol) -> (r: Protocol)
    ensures
        r == logger_socket_protocol_spec(p),
{
    p
}

} // verus!
