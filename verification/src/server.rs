//! One server: a registry and a session store, and the handling of a request
//! from its arrival to its single answer. Every transport hands its decoded
//! requests to `Server::handle`, so all of them answer alike.

use vstd::prelude::*;
use crate::error::{fails_with, ErrorKind, ToolError};
use crate::message::{ToolCallRequest, ToolCallResult, ToolOutput};
use crate::example_mcp::wrap32;
use crate::registry::{ToolHandler, ToolRegistry};
use crate::session::{fresh_session, Session, SessionStore};

verus! {

/// The registry, fixed once the server runs, and the open sessions.
#[derive(Clone, Debug)]
pub struct Server {
    pub registry: ToolRegistry,
    pub sessions: SessionStore,
}

/// The answer to a request, and the session it ran on, if it ran.
#[derive(Debug, PartialEq, Eq)]
pub struct Reply {
    pub result: ToolCallResult,
    pub session_id: Option<u64>,
}

/// Whether two answers say the same: the same output, or an error of the
/// same kind with the same message and details.
pub open spec fn same_outcome(
    a: Result<ToolOutput, ToolError>,
    b: Result<ToolOutput, ToolError>,
) -> bool {
    match (a, b) {
        (Ok(ToolOutput::Count(v)), Ok(ToolOutput::Count(w))) => v == w,
        (Ok(ToolOutput::Calculation(c)), Ok(ToolOutput::Calculation(d))) => c.result == d.result
            && c.operation@ == d.operation@,
        (Err(e), Err(f)) => e.kind == f.kind && e.message@ == f.message@ && e.details
            == f.details,
        _ => false,
    }
}

/// Whether a handler's answer says that the session's state is unusable.
pub open spec fn is_state_failure(res: Result<ToolOutput, ToolError>) -> bool {
    res matches Err(e) && e.kind == ErrorKind::InternalStateError
}

impl Server {
    /// Both parts are well formed.
    pub open spec fn wf(&self) -> bool {
        self.registry.wf() && self.sessions.wf()
    }

    /// The session a request runs on: the live session it names, or, if it
    /// names none, a fresh one under the first of the two offered ids that is
    /// free. `None` where the named session is absent or expired, and where
    /// both offered ids are taken.
    pub open spec fn target(&self, session_id: Option<u64>, first: u64, second: u64, now: u64)
        -> Option<Session> {
        match session_id {
            Some(id) => if self.sessions.live(id, now) {
                Some(self.sessions@[id])
            } else {
                None
            },
            None => if !self.sessions.has(first) {
                Some(fresh_session(first, now))
            } else if !self.sessions.has(second) {
                Some(fresh_session(second, now))
            } else {
                None
            },
        }
    }

    /// Whether a request names a session that is absent or expired.
    pub open spec fn names_dead_session(&self, session_id: Option<u64>, now: u64) -> bool {
        session_id matches Some(id) && !self.sessions.live(id, now)
    }

    /// What answering a request comes to: `post` is the server afterwards and
    /// `reply` the answer, for this server before.
    ///
    /// The session comes first: a request that names a session that is
    /// absent or expired is answered with `SessionNotFound`, whatever tool
    /// and parameters it holds, and what was left of the session is released.
    /// Then the registry: a request it refuses changes no session and opens
    /// none. A request without a session id that finds both offered ids
    /// taken is reported and nothing changes. Otherwise the handler's outcome
    /// is the answer, and the session is stored with `now` as its last use,
    /// or released if the handler found its state unusable. The registry and
    /// the store's idle limit always stay as they were.
    pub open spec fn answered(
        &self,
        request: ToolCallRequest,
        first: u64,
        second: u64,
        now: u64,
        post: Server,
        reply: Reply,
    ) -> bool {
        &&& post.registry == self.registry
        &&& post.sessions.idle_timeout == self.sessions.idle_timeout
        &&& reply.result.request_id == request.request_id
        &&& if self.names_dead_session(request.session_id, now) {
            reply.session_id == request.session_id && post.sessions@ == self.sessions@.remove(
                request.session_id->Some_0,
            ) && fails_with(reply.result.outcome, ErrorKind::SessionNotFound, "no such session"@)
        } else {
            match self.registry.refusal(request.tool_name@, request.params@) {
                Some(kind) => post.sessions == self.sessions && reply.session_id
                    == request.session_id && fails_with(
                    reply.result.outcome,
                    kind,
                    ToolRegistry::refusal_message(kind),
                ),
                None => match self.target(request.session_id, first, second, now) {
                    None => post.sessions == self.sessions && reply.session_id
                        == request.session_id && fails_with(
                        reply.result.outcome,
                        ErrorKind::InternalStateError,
                        "session id collision"@,
                    ),
                    Some(session) => reply.session_id == Some(session.id) && (if is_state_failure(
                        reply.result.outcome,
                    ) {
                        post.sessions@ == self.sessions@.remove(session.id)
                            && self.registry.tool(request.tool_name@).handler.outcome(
                            session.tools,
                            request.params@,
                            session.tools,
                            reply.result.outcome,
                        )
                    } else {
                        post.sessions@ == self.sessions@.insert(
                            session.id,
                            Session {
                                last_active: now,
                                tools: post.sessions@[session.id].tools,
                                ..session
                            },
                        ) && self.registry.tool(request.tool_name@).handler.outcome(
                            session.tools,
                            request.params@,
                            post.sessions@[session.id].tools,
                            reply.result.outcome,
                        )
                    }),
                },
            }
        }
    }

    /// A server over the given registry with no session open.
    pub fn new(registry: ToolRegistry, idle_timeout: Option<u64>) -> (server: Server)
        requires
            registry.wf(),
        ensures
            server.wf(),
            server.registry == registry,
            server.sessions.sessions@.len() == 0,
            server.sessions@ == Map::<u64, Session>::empty(),
            server.sessions.idle_timeout == idle_timeout,
    {
        Server { registry, sessions: SessionStore::new(idle_timeout) }
    }

    /// Answers one request. `first` and `second` are unguessable ids from the
    /// caller's random source, used only if a session has to be opened; `now`
    /// is the caller's clock.
    ///
    /// The answer carries the request's id. The session is resolved first: a
    /// request that names a session that is absent or expired fails with
    /// `SessionNotFound`, whatever else it holds, and what was left of that
    /// session is released. Then a request that the registry refuses changes
    /// no session and opens none. A request that names no session and finds
    /// both offered ids taken fails with `InternalStateError`. Otherwise the
    /// handler runs on the session, which
    /// is then stored with `now` as its last use, unless the handler found
    /// its state unusable: then the session is released. No other session is
    /// touched.
    pub fn handle(&mut self, request: ToolCallRequest, first: u64, second: u64, now: u64) -> (reply:
        Reply)
        requires
            old(self).wf(),
        ensures
            final(self).wf(),
            final(self).registry == old(self).registry,
            final(self).sessions.idle_timeout == old(self).sessions.idle_timeout,
            reply.result.request_id == request.request_id,
            old(self).answered(request, first, second, now, *final(self), reply),
            forall|other: u64|
                Some(other) != reply.session_id ==> final(self).sessions@.contains_key(other)
                    == old(self).sessions@.contains_key(other) && final(self).sessions@[other]
                    == old(self).sessions@[other],
    {
        let found: Option<Session> = match request.session_id {
            Some(id) => match self.sessions.get(id, now) {
                Ok(session) => Some(session),
                Err(e) => {
                    self.sessions.destroy(id);
                    return Reply {
                        result: ToolCallResult { request_id: request.request_id, outcome: Err(e) },
                        session_id: request.session_id,
                    };
                },
            },
            None => None,
        };
        let at: usize = match self.registry.check(&request) {
            Err(e) => {
                return Reply {
                    result: ToolCallResult { request_id: request.request_id, outcome: Err(e) },
                    session_id: request.session_id,
                };
            },
            Ok(at) => at,
        };
        let session: Session = match found {
            Some(session) => session,
            None => match self.sessions.create_session(first, second, now) {
                Ok(session) => session,
                Err(e) => {
                    return Reply {
                        result: ToolCallResult { request_id: request.request_id, outcome: Err(e) },
                        session_id: request.session_id,
                    };
                },
            },
        };
        assert(self.sessions@ =~= old(self).sessions@.insert(session.id, session));
        let handler = self.registry.tools[at].handler;
        let mut tools = session.tools;
        let outcome = handler.invoke(&mut tools, &request.params);
        let state_failure = match &outcome {
            Err(e) => e.kind == ErrorKind::InternalStateError,
            Ok(_) => false,
        };
        if state_failure {
            self.sessions.destroy(session.id);
            assert(self.sessions@ =~= old(self).sessions@.remove(session.id));
        } else {
            let kept = Session { last_active: now, tools, ..session };
            let _ = self.sessions.put(kept);
            assert(self.sessions@ =~= old(self).sessions@.insert(session.id, kept));
        }
        Reply {
            result: ToolCallResult { request_id: request.request_id, outcome },
            session_id: Some(session.id),
        }
    }

    /// Sessions are isolated: answering a request leaves every session but
    /// the one the answer names exactly as it was, present or absent, with
    /// the same counter.
    pub proof fn lemma_isolation(
        &self,
        request: ToolCallRequest,
        first: u64,
        second: u64,
        now: u64,
        post: Server,
        reply: Reply,
        other: u64,
    )
        requires
            self.answered(request, first, second, now, post, reply),
            reply.session_id != Some(other),
        ensures
            post.sessions@.contains_key(other) == self.sessions@.contains_key(other),
            post.sessions@[other] == self.sessions@[other],
    {
    }

    /// A request that names a session that is absent or expired is answered
    /// with `SessionNotFound` whatever tool and parameters it holds: no
    /// handler runs, no session comes into being under that id, and every
    /// other session stays as it was.
    pub proof fn lemma_dead_session(
        &self,
        request: ToolCallRequest,
        first: u64,
        second: u64,
        now: u64,
        post: Server,
        reply: Reply,
    )
        requires
            self.answered(request, first, second, now, post, reply),
            self.names_dead_session(request.session_id, now),
        ensures
            fails_with(reply.result.outcome, ErrorKind::SessionNotFound, "no such session"@),
            !post.sessions@.contains_key(request.session_id->Some_0),
            forall|other: u64|
                Some(other) != request.session_id ==> post.sessions@.contains_key(other)
                    == self.sessions@.contains_key(other) && post.sessions@[other]
                    == self.sessions@[other],
    {
    }

    /// A request for a tool that is not registered, on a live session or on
    /// none, is answered with `ToolNotFound`, and no session is opened,
    /// changed or released.
    pub proof fn lemma_unknown_tool(
        &self,
        request: ToolCallRequest,
        first: u64,
        second: u64,
        now: u64,
        post: Server,
        reply: Reply,
    )
        requires
            self.answered(request, first, second, now, post, reply),
            !self.names_dead_session(request.session_id, now),
            !self.registry.has(request.tool_name@),
        ensures
            post.sessions == self.sessions,
            fails_with(reply.result.outcome, ErrorKind::ToolNotFound, "Unknown tool"@),
    {
    }

    /// One `increment` on a live session whose state is usable returns the
    /// session's counter and leaves it one higher, wrapped to 32 bits; the
    /// session stays open and usable, with `now` as its last use, so that the
    /// next call at that time or within the idle limit after it finds it and
    /// counts on.
    pub proof fn lemma_increment_step(
        &self,
        request: ToolCallRequest,
        first: u64,
        second: u64,
        now: u64,
        post: Server,
        reply: Reply,
        id: u64,
    )
        requires
            self.answered(request, first, second, now, post, reply),
            request.session_id == Some(id),
            self.sessions.live(id, now),
            !self.sessions@[id].tools.poisoned,
            self.registry.refusal(request.tool_name@, request.params@).is_none(),
            self.registry.tool(request.tool_name@).handler == ToolHandler::Counter,
        ensures
            reply.session_id == Some(id),
            reply.result.outcome == Ok::<ToolOutput, ToolError>(
                ToolOutput::Count(self.sessions@[id].tools.counter),
            ),
            post.sessions@.contains_key(id),
            post.sessions@[id].tools.counter == wrap32(self.sessions@[id].tools.counter + 1),
            !post.sessions@[id].tools.poisoned,
            post.sessions@[id].last_active == now,
            post.sessions@[id].created_at == self.sessions@[id].created_at,
            !post.sessions.expired(post.sessions@[id], now),
    {
    }

    /// Whichever transport a request came by, the answer is the same: two
    /// servers with the same registry, answering requests with the same tool
    /// name and parameters on sessions with the same tool state, give the
    /// same output, or the same error kind and message, and leave the same
    /// tool state. Only the session ids may differ.
    pub proof fn lemma_same_answer(
        &self,
        request: ToolCallRequest,
        first: u64,
        second: u64,
        now: u64,
        post: Server,
        reply: Reply,
        other: Server,
        other_request: ToolCallRequest,
        other_first: u64,
        other_second: u64,
        other_now: u64,
        other_post: Server,
        other_reply: Reply,
    )
        requires
            self.answered(request, first, second, now, post, reply),
            other.answered(
                other_request,
                other_first,
                other_second,
                other_now,
                other_post,
                other_reply,
            ),
            self.registry == other.registry,
            request.tool_name@ == other_request.tool_name@,
            request.params@ == other_request.params@,
            self.target(request.session_id, first, second, now) matches Some(mine)
                && other.target(other_request.session_id, other_first, other_second, other_now)
                matches Some(theirs) && mine.tools == theirs.tools,
        ensures
            same_outcome(reply.result.outcome, other_reply.result.outcome),
            reply.result.outcome is Ok ==> post.sessions@[reply.session_id->Some_0].tools
                == other_post.sessions@[other_reply.session_id->Some_0].tools,
    {
    }

    /// Releases a session when its transport reports a disconnect. Releasing
    /// a session that is not there changes nothing.
    pub fn disconnect(&mut self, session_id: u64)
        requires
            old(self).wf(),
        ensures
            final(self).wf(),
            final(self).registry == old(self).registry,
            final(self).sessions.idle_timeout == old(self).sessions.idle_timeout,
            final(self).sessions@ == old(self).sessions@.remove(session_id),
    {
        self.sessions.destroy(session_id);
    }
}

} // verus!
