//! The HTTP receiver: which request gets which answer, and the entry that a
//! received batch becomes.

use crate::collector::entry::{LogEntry, LogEntryView, Timestamp};
use crate::string_map::StringMap;
use crate::text::{joined, decimal, str_eq, u64_to_string};
use vstd::prelude::*;

verus! {

/// Status of a successful answer.
pub const STATUS_OK: u16 = 200;

/// Status of the answer to an unknown route.
pub const STATUS_NOT_FOUND: u16 = 404;

/// Status of the answer to a batch that could not be taken.
pub const STATUS_INTERNAL_SERVER_ERROR: u16 = 500;

/// What a request asks for.
#[derive(Debug, Clone, Copy, PartialEq, Eq, Structural)]
pub enum OtlpRoute {
    /// A batch of logs is posted.
    Logs,
    /// The liveness check.
    Health,
    /// Anything else.
    NotFound,
}

/// How the handling of a posted batch ended.
#[derive(Debug, Clone, Copy, PartialEq, Eq, Structural)]
pub enum OtlpOutcome {
    /// The entry went into the pipeline.
    Forwarded,
    /// The pipeline did not take the entry.
    ForwardFailed,
    /// The body of the request could not be read.
    ReadFailed,
}

/// An answer to a request.
#[derive(Debug)]
pub struct HttpReply {
    /// The status code.
    pub status: u16,
    /// The body.
    pub body: String,
}

/// The route of a request: `POST /v1/logs` posts a batch, `GET /health` is
/// the liveness check, and nothing else is known.
pub open spec fn route_of(method: Seq<char>, path: Seq<char>) -> OtlpRoute {
    if method == "POST"@ && path == "/v1/logs"@ {
        OtlpRoute::Logs
    } else if method == "GET"@ && path == "/health"@ {
        OtlpRoute::Health
    } else {
        OtlpRoute::NotFound
    }
}

/// The route of a request with the given method and path.
pub fn handle_otlp_request(method: &str, path: &str) -> (route: OtlpRoute)
    ensures
        route == route_of(method@, path@),
{
    if str_eq(method, "POST") && str_eq(path, "/v1/logs") {
        OtlpRoute::Logs
    } else if str_eq(method, "GET") && str_eq(path, "/health") {
        OtlpRoute::Health
    } else {
        OtlpRoute::NotFound
    }
}

/// The status and body with which the liveness check is answered.
pub fn health_reply() -> (reply: HttpReply)
    ensures
        reply.status == STATUS_OK,
        reply.body@ == "OK"@,
{
    HttpReply { status: STATUS_OK, body: "OK".to_string() }
}

/// The status and body with which an unknown route is answered.
pub fn not_found_reply() -> (reply: HttpReply)
    ensures
        reply.status == STATUS_NOT_FOUND,
        reply.body@ == "Not found"@,
{
    HttpReply { status: STATUS_NOT_FOUND, body: "Not found".to_string() }
}

/// The body of the answer to a posted batch.
pub open spec fn logs_reply_body(outcome: OtlpOutcome) -> Seq<char> {
    match outcome {
        OtlpOutcome::Forwarded => Seq::empty(),
        OtlpOutcome::ForwardFailed => "Failed to process log"@,
        OtlpOutcome::ReadFailed => "Internal server error"@,
    }
}

/// The answer to a posted batch: success with an empty body once the entry
/// is in the pipeline, an internal error otherwise.
pub fn logs_reply(outcome: OtlpOutcome) -> (reply: HttpReply)
    ensures
        reply.status == (if outcome == OtlpOutcome::Forwarded {
            STATUS_OK
        } else {
            STATUS_INTERNAL_SERVER_ERROR
        }),
        reply.body@ == logs_reply_body(outcome),
{
    match outcome {
        OtlpOutcome::Forwarded => HttpReply { status: STATUS_OK, body: String::new() },
        OtlpOutcome::ForwardFailed => HttpReply {
            status: STATUS_INTERNAL_SERVER_ERROR,
            body: "Failed to process log".to_string(),
        },
        OtlpOutcome::ReadFailed => HttpReply {
            status: STATUS_INTERNAL_SERVER_ERROR,
            body: "Internal server error".to_string(),
        },
    }
}

/// The entry that records a posted batch of `size` bytes.
pub open spec fn received_entry(source: Seq<char>, size: nat, now: Timestamp) -> LogEntryView {
    LogEntryView {
        timestamp: now,
        source,
        level: Some("INFO"@),
        message: "Received OTLP log data ("@ + decimal(size) + " bytes)"@,
        attributes: Map::<Seq<char>, Seq<char>>::empty().insert("otlp_size"@, decimal(size)).insert(
            "content_type"@,
            "application/x-protobuf"@,
        ),
    }
}

/// Makes the entry that records a posted batch. The batch is not decoded:
/// the entry holds its size.
pub fn process_otlp_logs(source_name: String, body_len: usize, now: Timestamp) -> (entry: LogEntry)
    ensures
        entry@ == received_entry(source_name@, body_len as nat, now),
{
    let size = u64_to_string(body_len as u64);
    let head = joined("Received OTLP log data (", size.as_str());
    let message = joined(head.as_str(), " bytes)");
    let mut attributes = StringMap::new();
    attributes.insert("otlp_size".to_string(), size);
    attributes.insert("content_type".to_string(), "application/x-protobuf".to_string());
    LogEntry {
        timestamp: now,
        source: source_name,
        level: Some("INFO".to_string()),
        message,
        attributes,
    }
}

/// The text of the address that the receiver binds to: interface, colon,
/// port.
pub open spec fn listen_address_text(interface: Seq<char>, port: u16) -> Seq<char> {
    interface + ":"@ + decimal(port as nat)
}

/// The address that the receiver binds to, as text.
pub fn listen_address(interface: &str, port: u16) -> (s: String)
    ensures
        s@ == listen_address_text(interface@, port),
{
    let head = joined(interface, ":");
    let digits = u64_to_string(port as u64);
    joined(head.as_str(), digits.as_str())
}

/// The entry with which the receiver announces that it listens on
/// `address`.
pub fn start_otlp_server(source_name: &str, address: &str, now: Timestamp) -> (entry: LogEntry)
    ensures
        entry@ == crate::collector::sources::startup_entry(
            source_name@,
            "OTLP receiver started on "@ + address@,
            now,
        ),
{
    LogEntry {
        timestamp: now,
        source: source_name.to_string(),
        level: Some("INFO".to_string()),
        message: joined("OTLP receiver started on ", address),
        attributes: StringMap::new(),
    }
}

} // verus!
