//! What differs between the three transports: how a line-oriented stream is
//! cut into messages, when an idle connection is due a heartbeat, and which
//! session a request of a connection runs on. Everything else is shared:
//! each transport hands its decoded request to the same server.

use vstd::prelude::*;
use crate::error::{fails_with, ErrorKind, ToolError};
use crate::message::{ToolCallRequest, ToolCallResult};
use crate::server::{Reply, Server};
use crate::session::fresh_session;

verus! {

/// The wire bindings.
#[derive(Clone, Copy, Debug, PartialEq, Eq, Structural)]
pub enum Adapter {
    /// One request per input line, one answer per output line, one session
    /// for the adapter's lifetime.
    LineStream,
    /// An event channel per session and a separate channel for posts. The
    /// session is opened when the event channel connects, and every post
    /// names it.
    EventStream,
    /// One two-way endpoint. The session id travels with each request; a
    /// request without one opens a session.
    StreamingHttp,
}

/// One connection of a transport and the session it is bound to, if any.
#[derive(Clone, Copy, Debug, PartialEq, Eq, Structural)]
pub struct Connection {
    pub adapter: Adapter,
    pub session_id: Option<u64>,
}

/// The byte that ends a line.
pub const NEWLINE: u8 = 10;

/// Whether `end` is where the first line at or after `from` ends: the place
/// of the first newline from there on.
pub open spec fn is_line_end(bytes: Seq<u8>, from: int, end: int) -> bool {
    &&& from <= end < bytes.len()
    &&& bytes[end] == NEWLINE
    &&& forall|j: int| from <= j < end ==> bytes[j] != NEWLINE
}

/// Whether no line ends at or after `from`.
pub open spec fn no_line(bytes: Seq<u8>, from: int) -> bool {
    forall|j: int| from <= j < bytes.len() ==> bytes[j] != NEWLINE
}

/// Finds the end of the next complete line in a buffer: the message is the
/// bytes from `from` up to the place returned, and the next one starts right
/// after it. `None` while the line is still incomplete.
pub fn line_end(buffer: &Vec<u8>, from: usize) -> (end: Option<usize>)
    requires
        from <= buffer@.len(),
    ensures
        match end {
            Some(e) => is_line_end(buffer@, from as int, e as int),
            None => no_line(buffer@, from as int),
        },
{
    let mut i: usize = from;
    while i < buffer.len()
        invariant
            from <= i <= buffer@.len(),
            forall|j: int| from <= j < i ==> buffer@[j] != NEWLINE,
        decreases buffer@.len() - i,
    {
        if buffer[i] == NEWLINE {
            return Some(i);
        }
        i += 1;
    }
    None
}

/// Puts one message on a line of its own. A message that holds a newline
/// would break the pairing of requests and answers and is refused as a
/// `TransportDecodeError`.
pub fn frame_line(payload: &Vec<u8>) -> (res: Result<Vec<u8>, ToolError>)
    ensures
        no_line(payload@, 0) ==> res is Ok && res->Ok_0@ == payload@.push(NEWLINE),
        !no_line(payload@, 0) ==> fails_with(
            res,
            ErrorKind::TransportDecodeError,
            "newline inside a message"@,
        ),
{
    if line_end(payload, 0).is_some() {
        return Err(ToolError::new(ErrorKind::TransportDecodeError, "newline inside a message"));
    }
    let mut line: Vec<u8> = Vec::new();
    let mut i: usize = 0;
    while i < payload.len()
        invariant
            i <= payload@.len(),
            line@ == payload@.subrange(0, i as int),
        decreases payload@.len() - i,
    {
        line.push(payload[i]);
        assert(line@ =~= payload@.subrange(0, i + 1));
        i += 1;
    }
    line.push(NEWLINE);
    assert(payload@.subrange(0, payload@.len() as int) =~= payload@);
    Ok(line)
}

/// A framed message is read back whole, whatever follows it in the stream:
/// the first line of the framed bytes and anything after them ends exactly
/// where the message ends.
pub proof fn lemma_line_round_trip(payload: Seq<u8>, rest: Seq<u8>)
    requires
        no_line(payload, 0),
    ensures
        is_line_end(payload.push(NEWLINE) + rest, 0, payload.len() as int),
        (payload.push(NEWLINE) + rest).subrange(0, payload.len() as int) == payload,
{
    let stream = payload.push(NEWLINE) + rest;
    assert forall|j: int| 0 <= j < payload.len() implies stream[j] != NEWLINE by {
        assert(stream[j] == payload[j]);
    }
    assert(stream.subrange(0, payload.len() as int) =~= payload);
}

/// Whether an idle connection is due a heartbeat: a keep-alive interval is
/// set and at least that long has passed since the last thing was sent.
pub fn heartbeat_due(keep_alive: Option<u64>, last_sent: u64, now: u64) -> (due: bool)
    ensures
        due == (keep_alive matches Some(interval) && now - last_sent >= interval),
{
    match keep_alive {
        Some(interval) => now >= last_sent && now - last_sent >= interval,
        None => false,
    }
}

impl Connection {
    /// The session a request of this connection runs on, given the session
    /// id the request carries: `Ok(None)` opens a session, `Err` refuses.
    pub open spec fn routed(self, requested: Option<u64>) -> Result<Option<u64>, ErrorKind> {
        match self.adapter {
            Adapter::LineStream => Ok(self.session_id),
            Adapter::EventStream => if requested.is_some() && requested == self.session_id {
                Ok(requested)
            } else {
                Err(ErrorKind::SessionNotFound)
            },
            Adapter::StreamingHttp => Ok(requested),
        }
    }

    /// A connection that is not bound to a session yet.
    pub fn new(adapter: Adapter) -> (connection: Connection)
        ensures
            connection == (Connection { adapter, session_id: None }),
    {
        Connection { adapter, session_id: None }
    }

    /// Opens the session of a connection that has one from the start, as an
    /// event channel does when it connects, and binds the connection to it.
    /// On a collision of both offered ids nothing changes.
    pub fn establish(&mut self, server: &mut Server, first: u64, second: u64, now: u64) -> (res:
        Result<u64, ToolError>)
        requires
            old(server).wf(),
        ensures
            final(server).wf(),
            final(server).registry == old(server).registry,
            final(server).sessions.idle_timeout == old(server).sessions.idle_timeout,
            final(self).adapter == old(self).adapter,
            match old(server).target(None, first, second, now) {
                Some(session) => res == Ok::<u64, ToolError>(session.id) && final(self).session_id
                    == Some(session.id) && final(server).sessions@ == old(
                    server,
                ).sessions@.insert(session.id, fresh_session(session.id, now)),
                None => *final(self) == *old(self) && *final(server) == *old(server)
                    && fails_with(res, ErrorKind::InternalStateError, "session id collision"@),
            },
    {
        match server.sessions.create_session(first, second, now) {
            Ok(session) => {
                self.session_id = Some(session.id);
                Ok(session.id)
            },
            Err(e) => Err(e),
        }
    }

    /// Answers one request that arrived on this connection. The request runs
    /// on the session that `routed` gives it; on a line stream the connection
    /// is then bound to the session the answer names, as long as the server
    /// still holds it. A request that `routed` refuses gets its answer
    /// without reaching the server.
    pub fn serve(
        &mut self,
        server: &mut Server,
        request: ToolCallRequest,
        first: u64,
        second: u64,
        now: u64,
    ) -> (reply: Reply)
        requires
            old(server).wf(),
        ensures
            final(server).wf(),
            final(server).registry == old(server).registry,
            final(server).sessions.idle_timeout == old(server).sessions.idle_timeout,
            final(self).adapter == old(self).adapter,
            reply.result.request_id == request.request_id,
            match old(self).routed(request.session_id) {
                Err(kind) => *final(server) == *old(server) && *final(self) == *old(self)
                    && reply.session_id == request.session_id && fails_with(
                    reply.result.outcome,
                    kind,
                    "request names no session of this connection"@,
                ),
                Ok(session_id) => old(server).answered(
                    ToolCallRequest { session_id, ..request },
                    first,
                    second,
                    now,
                    *final(server),
                    reply,
                ) && final(self).session_id == (if old(self).adapter == Adapter::LineStream {
                    if reply.session_id is Some && final(server).sessions.has(
                        reply.session_id->Some_0,
                    ) {
                        reply.session_id
                    } else {
                        None
                    }
                } else {
                    old(self).session_id
                }),
            },
    {
        let session_id: Option<u64> = match self.adapter {
            Adapter::LineStream => self.session_id,
            Adapter::StreamingHttp => request.session_id,
            Adapter::EventStream => {
                let named = match (request.session_id, self.session_id) {
                    (Some(asked), Some(bound)) => asked == bound,
                    _ => false,
                };
                if !named {
                    return Reply {
                        result: ToolCallResult {
                            request_id: request.request_id,
                            outcome: Err(
                                ToolError::new(
                                    ErrorKind::SessionNotFound,
                                    "request names no session of this connection",
                                ),
                            ),
                        },
                        session_id: request.session_id,
                    };
                }
                request.session_id
            },
        };
        let routed = ToolCallRequest {
            session_id,
            tool_name: request.tool_name,
            params: request.params,
            request_id: request.request_id,
        };
        let reply = server.handle(routed, first, second, now);
        match self.adapter {
            Adapter::LineStream => {
                self.session_id = match reply.session_id {
                    Some(id) => if server.sessions.find(id).is_some() {
                        Some(id)
                    } else {
                        None
                    },
                    None => None,
                };
            },
            _ => {},
        }
        reply
    }
}

} // verus!
