use rig_playground::error::ErrorKind;
use rig_playground::message::{ToolCallRequest, ToolOutput};
use rig_playground::registry::ToolRegistry;
use rig_playground::schema::{Field, Value};
use rig_playground::server::Server;
use rig_playground::transport::{frame_line, heartbeat_due, line_end, Adapter, Connection};

fn increment(session_id: Option<u64>) -> ToolCallRequest {
    ToolCallRequest {
        session_id,
        tool_name: "increment".to_string(),
        params: Vec::new(),
        request_id: "q".to_string(),
    }
}

#[test]
fn line_end_finds_the_first_newline() {
    let buffer = b"ab\ncd\n\nef".to_vec();
    assert_eq!(line_end(&buffer, 0), Some(2));
    assert_eq!(line_end(&buffer, 2), Some(2));
    assert_eq!(line_end(&buffer, 3), Some(5));
    assert_eq!(line_end(&buffer, 6), Some(6));
    assert_eq!(line_end(&buffer, 7), None);
    assert_eq!(line_end(&buffer, 9), None);
    assert_eq!(line_end(&Vec::new(), 0), None);
}

#[test]
fn frame_line_appends_one_newline() {
    assert_eq!(frame_line(&b"{\"a\":1}".to_vec()).unwrap(), b"{\"a\":1}\n".to_vec());
    assert_eq!(frame_line(&Vec::new()).unwrap(), b"\n".to_vec());
    let e = frame_line(&b"a\nb".to_vec()).unwrap_err();
    assert_eq!(e.kind, ErrorKind::TransportDecodeError);
    assert_eq!(e.message, "newline inside a message");
}

#[test]
fn framed_messages_read_back_whole() {
    let first = b"{\"requestId\":\"1\"}".to_vec();
    let second = b"{\"requestId\":\"2\"}".to_vec();
    let mut stream = frame_line(&first).unwrap();
    stream.extend(frame_line(&second).unwrap());
    let end = line_end(&stream, 0).unwrap();
    assert_eq!(stream[..end].to_vec(), first);
    let next = line_end(&stream, end + 1).unwrap();
    assert_eq!(stream[end + 1..next].to_vec(), second);
    assert_eq!(line_end(&stream, next + 1), None);
}

#[test]
fn heartbeat_is_due_after_the_interval() {
    assert!(!heartbeat_due(None, 0, u64::MAX));
    assert!(!heartbeat_due(Some(15), 100, 114));
    assert!(heartbeat_due(Some(15), 100, 115));
    assert!(heartbeat_due(Some(15), 100, 500));
    assert!(!heartbeat_due(Some(15), 100, 50));
    assert!(heartbeat_due(Some(0), 7, 7));
}

#[test]
fn line_stream_keeps_one_session() {
    let mut server = Server::new(ToolRegistry::standard(), None);
    let mut c = Connection::new(Adapter::LineStream);
    assert_eq!(c, Connection { adapter: Adapter::LineStream, session_id: None });
    let r = c.serve(&mut server, increment(None), 10, 20, 0);
    assert_eq!(r.result.outcome, Ok(ToolOutput::Count(0)));
    assert_eq!(c.session_id, Some(10));
    let r = c.serve(&mut server, increment(Some(999)), 30, 40, 0);
    assert_eq!(r.result.outcome, Ok(ToolOutput::Count(1)));
    assert_eq!(r.session_id, Some(10));
    let r = c.serve(&mut server, increment(None), 30, 40, 0);
    assert_eq!(r.result.outcome, Ok(ToolOutput::Count(2)));
    assert_eq!(server.sessions.len(), 1);
}

#[test]
fn event_stream_posts_must_name_the_session() {
    let mut server = Server::new(ToolRegistry::standard(), None);
    let mut c = Connection::new(Adapter::EventStream);
    let r = c.serve(&mut server, increment(None), 1, 2, 0);
    assert_eq!(r.result.outcome.unwrap_err().kind, ErrorKind::SessionNotFound);
    assert_eq!(server.sessions.len(), 0);
    assert_eq!(c.establish(&mut server, 1, 2, 0).unwrap(), 1);
    assert_eq!(c.session_id, Some(1));
    let r = c.serve(&mut server, increment(None), 3, 4, 0);
    let e = r.result.outcome.unwrap_err();
    assert_eq!(e.kind, ErrorKind::SessionNotFound);
    assert_eq!(e.message, "request names no session of this connection");
    let r = c.serve(&mut server, increment(Some(2)), 3, 4, 0);
    assert_eq!(r.result.outcome.unwrap_err().kind, ErrorKind::SessionNotFound);
    let r = c.serve(&mut server, increment(Some(1)), 3, 4, 0);
    assert_eq!(r.result.outcome, Ok(ToolOutput::Count(0)));
    assert_eq!(r.result.request_id, "q");
    assert_eq!(server.sessions.len(), 1);
}

#[test]
fn establish_reports_a_collision() {
    let mut server = Server::new(ToolRegistry::standard(), None);
    let mut a = Connection::new(Adapter::EventStream);
    let mut b = Connection::new(Adapter::EventStream);
    assert_eq!(a.establish(&mut server, 1, 1, 0).unwrap(), 1);
    let e = b.establish(&mut server, 1, 1, 0).unwrap_err();
    assert_eq!(e.kind, ErrorKind::InternalStateError);
    assert_eq!(b.session_id, None);
    assert_eq!(server.sessions.len(), 1);
}

#[test]
fn streaming_http_threads_the_session_id() {
    let mut server = Server::new(ToolRegistry::standard(), None);
    let mut c = Connection::new(Adapter::StreamingHttp);
    let r = c.serve(&mut server, increment(None), 7, 8, 0);
    assert_eq!((r.session_id, r.result.outcome), (Some(7), Ok(ToolOutput::Count(0))));
    assert_eq!(c.session_id, None);
    let r = c.serve(&mut server, increment(Some(7)), 0, 0, 0);
    assert_eq!(r.result.outcome, Ok(ToolOutput::Count(1)));
    let r = c.serve(&mut server, increment(None), 7, 8, 0);
    assert_eq!((r.session_id, r.result.outcome), (Some(8), Ok(ToolOutput::Count(0))));
}

#[test]
fn all_transports_answer_alike() {
    let mut answers = Vec::new();
    for adapter in [Adapter::LineStream, Adapter::EventStream, Adapter::StreamingHttp] {
        let mut server = Server::new(ToolRegistry::standard(), None);
        let mut c = Connection::new(adapter);
        let id = c.establish(&mut server, 5, 6, 0).unwrap();
        let first = c.serve(&mut server, increment(Some(id)), 0, 0, 1);
        let second = c.serve(&mut server, increment(Some(id)), 0, 0, 2);
        answers.push((first, second));
    }
    assert_eq!(answers[0], answers[1]);
    assert_eq!(answers[1], answers[2]);
    assert_eq!(answers[0].1.result.outcome, Ok(ToolOutput::Count(1)));
}

#[test]
fn event_stream_post_for_a_session_that_is_gone() {
    let mut server = Server::new(ToolRegistry::standard(), Some(10));
    let mut c = Connection::new(Adapter::EventStream);
    let id = c.establish(&mut server, 1, 2, 100).unwrap();
    let mut request = increment(Some(id));
    request.tool_name = "decrement".to_string();
    let r = c.serve(&mut server, request, 3, 4, 200);
    assert_eq!(r.result.outcome.unwrap_err().kind, ErrorKind::SessionNotFound);
    assert_eq!(server.sessions.len(), 0);
    let mut d = Connection::new(Adapter::EventStream);
    let id = d.establish(&mut server, 5, 6, 300).unwrap();
    server.disconnect(id);
    let mut request = increment(Some(id));
    request.params = vec![Field { name: "a".to_string(), value: Value::Int(1) }];
    let r = d.serve(&mut server, request, 3, 4, 300);
    assert_eq!(r.result.outcome.unwrap_err().kind, ErrorKind::SessionNotFound);
    assert_eq!(server.sessions.len(), 0);
}

#[test]
fn line_stream_counts_through_other_requests() {
    let mut server = Server::new(ToolRegistry::standard(), Some(1000));
    let mut c = Connection::new(Adapter::LineStream);
    let mut next = 0;
    for step in 0..30u64 {
        if step % 3 == 1 {
            let mut other = increment(None);
            other.tool_name = "nothing".to_string();
            let r = c.serve(&mut server, other, 7, 8, step);
            assert_eq!(r.result.outcome.unwrap_err().kind, ErrorKind::ToolNotFound);
        } else {
            let r = c.serve(&mut server, increment(None), 7, 8, step);
            assert_eq!(r.result.outcome, Ok(ToolOutput::Count(next)));
            next += 1;
        }
        assert_eq!(server.sessions.idle_timeout, Some(1000));
    }
    assert_eq!(server.sessions.len(), 1);
    assert_eq!(c.session_id, Some(7));
}

#[test]
fn event_stream_clients_count_apart() {
    let mut server = Server::new(ToolRegistry::standard(), Some(1000));
    let mut a = Connection::new(Adapter::EventStream);
    let mut b = Connection::new(Adapter::EventStream);
    let ia = a.establish(&mut server, 1, 2, 0).unwrap();
    let ib = b.establish(&mut server, 1, 2, 0).unwrap();
    assert_ne!(ia, ib);
    let order = [true, true, false, true, false, false, false, true];
    let (mut na, mut nb) = (0, 0);
    for (t, first) in order.iter().enumerate() {
        if *first {
            let r = a.serve(&mut server, increment(Some(ia)), 0, 0, t as u64);
            assert_eq!((r.session_id, r.result.outcome), (Some(ia), Ok(ToolOutput::Count(na))));
            na += 1;
        } else {
            let r = b.serve(&mut server, increment(Some(ib)), 0, 0, t as u64);
            assert_eq!((r.session_id, r.result.outcome), (Some(ib), Ok(ToolOutput::Count(nb))));
            nb += 1;
        }
    }
}
