use rig_playground::error::ErrorKind;
use rig_playground::example_mcp::CalculationResult;
use rig_playground::message::{ToolCallRequest, ToolOutput};
use rig_playground::registry::ToolRegistry;
use rig_playground::schema::{Field, Value};
use rig_playground::server::Server;

fn increment(session_id: Option<u64>, request_id: &str) -> ToolCallRequest {
    ToolCallRequest {
        session_id,
        tool_name: "increment".to_string(),
        params: Vec::new(),
        request_id: request_id.to_string(),
    }
}

fn calculate(session_id: Option<u64>, a: i64, b: i64, op: &str) -> ToolCallRequest {
    ToolCallRequest {
        session_id,
        tool_name: "calculate".to_string(),
        params: vec![
            Field { name: "a".to_string(), value: Value::Int(a) },
            Field { name: "b".to_string(), value: Value::Int(b) },
            Field { name: "operation".to_string(), value: Value::Text(op.to_string()) },
        ],
        request_id: "calc".to_string(),
    }
}

fn server() -> Server {
    Server::new(ToolRegistry::standard(), None)
}

#[test]
fn first_request_opens_a_session() {
    let mut s = server();
    let reply = s.handle(increment(None, "a"), 100, 200, 1);
    assert_eq!(reply.session_id, Some(100));
    assert_eq!(reply.result.request_id, "a");
    assert_eq!(reply.result.outcome, Ok(ToolOutput::Count(0)));
    let stored = s.sessions.get(100, 1).unwrap();
    assert_eq!((stored.created_at, stored.last_active, stored.tools.counter), (1, 1, 1));
    let reply = s.handle(increment(Some(100), "b"), 300, 400, 9);
    assert_eq!(reply.session_id, Some(100));
    assert_eq!(reply.result.request_id, "b");
    assert_eq!(reply.result.outcome, Ok(ToolOutput::Count(1)));
    let stored = s.sessions.get(100, 9).unwrap();
    assert_eq!((stored.created_at, stored.last_active, stored.tools.counter), (1, 9, 2));
    assert_eq!(s.sessions.len(), 1);
}

#[test]
fn serial_increments_through_a_session() {
    let mut s = server();
    let id = s.handle(increment(None, "0"), 5, 6, 0).session_id;
    for n in 1..50 {
        let reply = s.handle(increment(id, "n"), 0, 0, 0);
        assert_eq!(reply.result.outcome, Ok(ToolOutput::Count(n)));
    }
    assert_eq!(s.sessions.get(5, 0).unwrap().tools.counter, 50);
}

#[test]
fn sessions_do_not_see_each_other() {
    let mut s = server();
    let a = s.handle(increment(None, "a0"), 1, 2, 0).session_id;
    let b = s.handle(increment(None, "b0"), 1, 2, 0).session_id;
    assert_eq!((a, b), (Some(1), Some(2)));
    assert_eq!(s.handle(increment(a, "a1"), 0, 0, 0).result.outcome, Ok(ToolOutput::Count(1)));
    assert_eq!(s.handle(increment(a, "a2"), 0, 0, 0).result.outcome, Ok(ToolOutput::Count(2)));
    assert_eq!(s.handle(increment(b, "b1"), 0, 0, 0).result.outcome, Ok(ToolOutput::Count(1)));
    assert_eq!(s.handle(increment(a, "a3"), 0, 0, 0).result.outcome, Ok(ToolOutput::Count(3)));
    assert_eq!(s.sessions.get(1, 0).unwrap().tools.counter, 4);
    assert_eq!(s.sessions.get(2, 0).unwrap().tools.counter, 2);
}

#[test]
fn calculate_through_the_server() {
    let mut s = server();
    let reply = s.handle(calculate(None, 2, 3, "add"), 1, 2, 0);
    assert_eq!(
        reply.result.outcome,
        Ok(ToolOutput::Calculation(CalculationResult { result: 5, operation: "add".to_string() }))
    );
    let reply = s.handle(calculate(reply.session_id, 2, 3, "multiply"), 1, 2, 0);
    assert_eq!(
        reply.result.outcome,
        Ok(ToolOutput::Calculation(CalculationResult {
            result: 6,
            operation: "multiply".to_string()
        }))
    );
    assert_eq!(s.sessions.get(1, 0).unwrap().tools.counter, 0);
}

#[test]
fn divide_opens_and_changes_no_session() {
    let mut s = server();
    let reply = s.handle(calculate(None, 1, 1, "divide"), 1, 2, 0);
    assert_eq!(reply.result.outcome.unwrap_err().kind, ErrorKind::InvalidParams);
    assert_eq!(reply.session_id, None);
    assert_eq!(reply.result.request_id, "calc");
    assert_eq!(s.sessions.len(), 0);
    let id = s.handle(increment(None, "x"), 1, 2, 0).session_id;
    let before = s.sessions.get(1, 0).unwrap();
    let reply = s.handle(calculate(id, 1, 1, "divide"), 1, 2, 5);
    assert_eq!(reply.result.outcome.unwrap_err().kind, ErrorKind::InvalidParams);
    assert_eq!(s.sessions.get(1, 0).unwrap(), before);
}

#[test]
fn unknown_tool_changes_nothing() {
    let mut s = server();
    let id = s.handle(increment(None, "x"), 1, 2, 0).session_id;
    let before = s.sessions.get(1, 0).unwrap();
    let mut request = increment(id, "y");
    request.tool_name = "decrement".to_string();
    let reply = s.handle(request, 3, 4, 8);
    let e = reply.result.outcome.unwrap_err();
    assert_eq!(e.kind, ErrorKind::ToolNotFound);
    assert_eq!(reply.result.request_id, "y");
    assert_eq!(s.sessions.get(1, 0).unwrap(), before);
    assert_eq!(s.sessions.len(), 1);
    assert_eq!(s.registry.len(), 2);
}

#[test]
fn unknown_session_is_reported() {
    let mut s = server();
    let reply = s.handle(increment(Some(9), "x"), 1, 2, 0);
    assert_eq!(reply.result.outcome.unwrap_err().kind, ErrorKind::SessionNotFound);
    assert_eq!(reply.session_id, Some(9));
    assert_eq!(s.sessions.len(), 0);
}

#[test]
fn expired_session_is_released() {
    let mut s = Server::new(ToolRegistry::standard(), Some(10));
    let id = s.handle(increment(None, "x"), 1, 2, 100).session_id;
    assert_eq!(s.handle(increment(id, "y"), 0, 0, 110).result.outcome, Ok(ToolOutput::Count(1)));
    assert_eq!(s.handle(increment(id, "z"), 0, 0, 120).result.outcome, Ok(ToolOutput::Count(2)));
    let reply = s.handle(increment(id, "late"), 0, 0, 131);
    assert_eq!(reply.result.outcome.unwrap_err().kind, ErrorKind::SessionNotFound);
    assert_eq!(s.sessions.len(), 0);
}

#[test]
fn id_collision_is_an_internal_state_error() {
    let mut s = server();
    assert_eq!(s.handle(increment(None, "a"), 1, 1, 0).session_id, Some(1));
    let reply = s.handle(increment(None, "b"), 1, 1, 0);
    let e = reply.result.outcome.unwrap_err();
    assert_eq!(e.kind, ErrorKind::InternalStateError);
    assert_eq!(reply.session_id, None);
    assert_eq!(s.sessions.len(), 1);
    assert_eq!(s.handle(increment(None, "c"), 1, 2, 0).session_id, Some(2));
}

#[test]
fn poisoned_session_is_torn_down() {
    let mut s = server();
    let id = s.handle(increment(None, "a"), 1, 2, 0).session_id;
    let other = s.handle(increment(None, "b"), 1, 2, 0).session_id;
    let mut broken = s.sessions.get(1, 0).unwrap();
    broken.tools.poison();
    assert!(s.sessions.put(broken));
    let reply = s.handle(increment(id, "c"), 0, 0, 0);
    assert_eq!(reply.result.outcome.unwrap_err().kind, ErrorKind::InternalStateError);
    assert_eq!(s.sessions.len(), 1);
    assert_eq!(s.handle(increment(id, "d"), 0, 0, 0).result.outcome.unwrap_err().kind, ErrorKind::SessionNotFound);
    assert_eq!(s.handle(increment(other, "e"), 0, 0, 0).result.outcome, Ok(ToolOutput::Count(1)));
}

#[test]
fn disconnect_releases_the_session() {
    let mut s = server();
    let id = s.handle(increment(None, "a"), 1, 2, 0).session_id;
    s.disconnect(1);
    s.disconnect(1);
    assert_eq!(s.sessions.len(), 0);
    assert_eq!(s.handle(increment(id, "b"), 0, 0, 0).result.outcome.unwrap_err().kind, ErrorKind::SessionNotFound);
}

#[test]
fn dead_session_comes_before_the_registry() {
    let mut s = Server::new(ToolRegistry::standard(), Some(10));
    let id = s.handle(increment(None, "open"), 1, 2, 100).session_id;
    let mut request = increment(Some(9), "a");
    request.tool_name = "decrement".to_string();
    let reply = s.handle(request, 3, 4, 100);
    let e = reply.result.outcome.unwrap_err();
    assert_eq!(e.kind, ErrorKind::SessionNotFound);
    assert_eq!(e.message, "no such session");
    assert_eq!(reply.session_id, Some(9));
    assert_eq!(reply.result.request_id, "a");
    let reply = s.handle(calculate(Some(9), 1, 1, "divide"), 3, 4, 100);
    assert_eq!(reply.result.outcome.unwrap_err().kind, ErrorKind::SessionNotFound);
    assert_eq!(s.sessions.len(), 1);
    assert_eq!(s.sessions.get(1, 100).unwrap().tools.counter, 1);
    let mut late = increment(id, "late");
    late.tool_name = "decrement".to_string();
    let reply = s.handle(late, 3, 4, 111);
    assert_eq!(reply.result.outcome.unwrap_err().kind, ErrorKind::SessionNotFound);
    assert_eq!(s.sessions.len(), 0);
}

#[test]
fn refusal_on_a_live_session_keeps_it() {
    let mut s = Server::new(ToolRegistry::standard(), Some(10));
    let id = s.handle(increment(None, "open"), 1, 2, 100).session_id;
    let before = s.sessions.get(1, 100).unwrap();
    let mut request = increment(id, "a");
    request.tool_name = "decrement".to_string();
    let reply = s.handle(request, 3, 4, 105);
    assert_eq!(reply.result.outcome.unwrap_err().kind, ErrorKind::ToolNotFound);
    assert_eq!(s.sessions.get(1, 105).unwrap(), before);
    assert_eq!(s.sessions.idle_timeout, Some(10));
}
