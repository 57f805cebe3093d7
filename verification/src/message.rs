//! The transport-independent message model: what a request holds, what comes
//! back, and the flat record in which a result travels on every transport.

use vstd::prelude::*;
use crate::error::{fails_with, ErrorKind, ToolError};
use crate::example_mcp::CalculationResult;
use crate::schema::{Field, Value};

verus! {

/// What a tool hands back on success.
#[derive(Clone, Debug, PartialEq, Eq)]
pub enum ToolOutput {
    /// The counter's value before it was incremented.
    Count(i32),
    /// The calculator's answer.
    Calculation(CalculationResult),
}

impl ToolOutput {
    /// Whether `fields` is this output as a structured value: the count as
    /// `value`, or the calculator's answer as `result` and `operation`.
    pub open spec fn shown_as(self, fields: Seq<Field>) -> bool {
        match self {
            ToolOutput::Count(v) => {
                &&& fields.len() == 1
                &&& fields[0].name@ == "value"@
                &&& fields[0].value matches Value::Int(n)
                &&& n == v
            },
            ToolOutput::Calculation(c) => {
                &&& fields.len() == 2
                &&& fields[0].name@ == "result"@
                &&& fields[0].value matches Value::Int(n)
                &&& n == c.result
                &&& fields[1].name@ == "operation"@
                &&& fields[1].value matches Value::Text(text)
                &&& text@ == c.operation@
            },
        }
    }

    /// Lays the output out as a structured value.
    pub fn to_fields(&self) -> (fields: Vec<Field>)
        ensures
            self.shown_as(fields@),
    {
        let mut fields: Vec<Field> = Vec::new();
        match self {
            ToolOutput::Count(v) => {
                fields.push(Field { name: "value".to_owned(), value: Value::Int(*v as i64) });
            },
            ToolOutput::Calculation(c) => {
                fields.push(Field { name: "result".to_owned(), value: Value::Int(c.result as i64) });
                fields.push(
                    Field { name: "operation".to_owned(), value: Value::Text(c.operation.clone()) },
                );
            },
        }
        fields
    }
}

/// A request to call a tool. Without a session id a new session is opened.
#[derive(Clone, Debug, PartialEq, Eq)]
pub struct ToolCallRequest {
    pub session_id: Option<u64>,
    pub tool_name: String,
    pub params: Vec<Field>,
    pub request_id: String,
}

/// The one answer to a request: the tool's output or an error.
#[derive(Debug, PartialEq, Eq)]
pub struct ToolCallResult {
    pub request_id: String,
    pub outcome: Result<ToolOutput, ToolError>,
}

/// An error as it travels: its kind by name.
#[derive(Clone, Debug, PartialEq, Eq)]
pub struct WireError {
    pub kind: String,
    pub message: String,
    pub details: Option<String>,
}

/// A result as it travels: exactly one of `output` and `error` is present.
#[derive(Clone, Debug, PartialEq, Eq)]
pub struct WireResult {
    pub request_id: String,
    pub output: Option<ToolOutput>,
    pub error: Option<WireError>,
}

/// The kind that a wire name stands for, if it is the name of a kind.
pub open spec fn kind_named(name: Seq<char>) -> Option<ErrorKind> {
    if name == "DuplicateTool"@ {
        Some(ErrorKind::DuplicateTool)
    } else if name == "ToolNotFound"@ {
        Some(ErrorKind::ToolNotFound)
    } else if name == "InvalidParams"@ {
        Some(ErrorKind::InvalidParams)
    } else if name == "SessionNotFound"@ {
        Some(ErrorKind::SessionNotFound)
    } else if name == "ToolExecutionError"@ {
        Some(ErrorKind::ToolExecutionError)
    } else if name == "InternalStateError"@ {
        Some(ErrorKind::InternalStateError)
    } else if name == "TransportDecodeError"@ {
        Some(ErrorKind::TransportDecodeError)
    } else {
        None
    }
}

/// Every kind is read back from its own wire name.
pub proof fn lemma_kind_names(kind: ErrorKind)
    ensures
        kind_named(kind.spec_name()) == Some(kind),
{
    reveal_strlit("DuplicateTool");
    reveal_strlit("ToolNotFound");
    reveal_strlit("InvalidParams");
    reveal_strlit("SessionNotFound");
    reveal_strlit("ToolExecutionError");
    reveal_strlit("InternalStateError");
    reveal_strlit("TransportDecodeError");
    assert("DuplicateTool"@.len() == 13 && "DuplicateTool"@[0] == 'D');
    assert("ToolNotFound"@.len() == 12);
    assert("InvalidParams"@.len() == 13 && "InvalidParams"@[0] == 'I');
    assert("SessionNotFound"@.len() == 15);
    assert("ToolExecutionError"@.len() == 18 && "ToolExecutionError"@[0] == 'T');
    assert("InternalStateError"@.len() == 18 && "InternalStateError"@[0] == 'I');
    assert("TransportDecodeError"@.len() == 20);
}

/// Reads a kind from its wire name.
pub fn parse_kind(name: &String) -> (kind: Option<ErrorKind>)
    ensures
        kind == kind_named(name@),
{
    if *name == "DuplicateTool".to_owned() {
        Some(ErrorKind::DuplicateTool)
    } else if *name == "ToolNotFound".to_owned() {
        Some(ErrorKind::ToolNotFound)
    } else if *name == "InvalidParams".to_owned() {
        Some(ErrorKind::InvalidParams)
    } else if *name == "SessionNotFound".to_owned() {
        Some(ErrorKind::SessionNotFound)
    } else if *name == "ToolExecutionError".to_owned() {
        Some(ErrorKind::ToolExecutionError)
    } else if *name == "InternalStateError".to_owned() {
        Some(ErrorKind::InternalStateError)
    } else if *name == "TransportDecodeError".to_owned() {
        Some(ErrorKind::TransportDecodeError)
    } else {
        None
    }
}

/// The value of a hexadecimal digit, in either case.
pub open spec fn hex_digit(c: char) -> Option<int> {
    let n = c as int;
    if 48 <= n <= 57 {
        Some(n - 48)
    } else if 97 <= n <= 102 {
        Some(n - 87)
    } else if 65 <= n <= 70 {
        Some(n - 55)
    } else {
        None
    }
}

/// The number that a run of hexadecimal digits writes, if every character
/// is such a digit and the number fits in 64 bits. The empty run writes 0.
pub open spec fn hex_number(text: Seq<char>) -> Option<int>
    decreases text.len(),
{
    if text.len() == 0 {
        Some(0)
    } else {
        match (hex_number(text.drop_last()), hex_digit(text.last())) {
            (Some(n), Some(d)) => if n * 16 + d <= u64::MAX {
                Some(n * 16 + d)
            } else {
                None
            },
            _ => None,
        }
    }
}

/// The session id that a text names on the wire: one or more hexadecimal
/// digits whose number fits in 64 bits.
pub open spec fn session_id_named(text: Seq<char>) -> Option<u64> {
    if text.len() == 0 {
        None
    } else {
        match hex_number(text) {
            Some(n) => Some(n as u64),
            None => None,
        }
    }
}

/// Reads one hexadecimal digit.
pub fn read_hex_digit(c: char) -> (digit: Option<u64>)
    ensures
        match hex_digit(c) {
            Some(d) => digit == Some(d as u64) && d <= 15,
            None => digit.is_none(),
        },
{
    let n: u32 = c as u32;
    if 48 <= n && n <= 57 {
        Some((n - 48) as u64)
    } else if 97 <= n && n <= 102 {
        Some((n - 87) as u64)
    } else if 65 <= n && n <= 70 {
        Some((n - 55) as u64)
    } else {
        None
    }
}

/// Reads a session id from its text on the wire.
pub fn parse_session_id(text: &String) -> (id: Option<u64>)
    ensures
        id == session_id_named(text@),
{
    let s = text.as_str();
    let n: usize = s.unicode_len();
    if n == 0 {
        return None;
    }
    let mut number: u64 = 0;
    let mut good: bool = true;
    let mut i: usize = 0;
    while i < n
        invariant
            i <= n,
            n == s@.len(),
            s@ == text@,
            hex_number(text@.subrange(0, i as int)) == (if good {
                Some(number as int)
            } else {
                None
            }),
        decreases n - i,
    {
        let c = s.get_char(i);
        proof {
            let prefix = text@.subrange(0, i + 1);
            assert(prefix.drop_last() =~= text@.subrange(0, i as int));
            assert(prefix.last() == c);
        }
        if good {
            match read_hex_digit(c) {
                Some(d) => {
                    if number <= 0x0fff_ffff_ffff_ffff {
                        number = number * 16 + d;
                    } else {
                        good = false;
                    }
                },
                None => {
                    good = false;
                },
            }
        }
        i += 1;
    }
    assert(text@.subrange(0, n as int) =~= text@);
    if good {
        Some(number)
    } else {
        None
    }
}

/// Puts a request together from what a transport has read. The session id
/// arrives as text and `params` as `None` where the payload held a value
/// that is neither an integer nor a text. A session id that names no id is
/// refused as a `TransportDecodeError`, and so is such a payload.
pub fn decode_request(
    request_id: String,
    tool_name: String,
    params: Option<Vec<Field>>,
    session_id: Option<String>,
) -> (res: Result<ToolCallRequest, ToolError>)
    ensures
        match session_id {
            Some(text) if session_id_named(text@).is_none() => fails_with(
                res,
                ErrorKind::TransportDecodeError,
                "malformed session id"@,
            ),
            _ => match params {
                None => fails_with(res, ErrorKind::TransportDecodeError, "malformed value"@),
                Some(fields) => res == Ok::<ToolCallRequest, ToolError>(
                    ToolCallRequest {
                        session_id: match session_id {
                            Some(text) => session_id_named(text@),
                            None => None,
                        },
                        tool_name,
                        params: fields,
                        request_id,
                    },
                ),
            },
        },
{
    let id: Option<u64> = match &session_id {
        Some(text) => match parse_session_id(text) {
            Some(id) => Some(id),
            None => {
                return Err(
                    ToolError::new(ErrorKind::TransportDecodeError, "malformed session id"),
                );
            },
        },
        None => None,
    };
    match params {
        None => Err(ToolError::new(ErrorKind::TransportDecodeError, "malformed value")),
        Some(fields) => Ok(ToolCallRequest { session_id: id, tool_name, params: fields, request_id }),
    }
}

/// The answer to input that could not be read as a request at all: a
/// `TransportDecodeError` with the reader's message, under an empty
/// request id.
pub fn decode_failure(message: String) -> (result: ToolCallResult)
    ensures
        result.request_id@.len() == 0,
        result.outcome matches Err(e) && e.kind == ErrorKind::TransportDecodeError && e.message
            == message && e.details.is_none(),
{
    ToolCallResult {
        request_id: String::new(),
        outcome: Err(ToolError { kind: ErrorKind::TransportDecodeError, message, details: None }),
    }
}

/// Whether a wire record is the flat form of `result`.
pub open spec fn encodes(wire: WireResult, result: ToolCallResult) -> bool {
    wire.request_id == result.request_id && match result.outcome {
        Ok(output) => wire.output == Some(output) && wire.error.is_none(),
        Err(e) => wire.output.is_none() && (wire.error matches Some(w) && w.kind@
            == e.kind.spec_name() && w.message == e.message && w.details == e.details),
    }
}

/// Whether a wire record can be read: it holds an output or an error, not
/// both, and an error's kind is a known name.
pub open spec fn readable(wire: WireResult) -> bool {
    match (wire.output, wire.error) {
        (Some(_), None) => true,
        (None, Some(w)) => kind_named(w.kind@).is_some(),
        _ => false,
    }
}

/// Lays a result out for the wire.
pub fn encode_result(result: ToolCallResult) -> (wire: WireResult)
    ensures
        encodes(wire, result),
        readable(wire),
{
    match result.outcome {
        Ok(output) => WireResult { request_id: result.request_id, output: Some(output), error: None },
        Err(e) => {
            proof {
                lemma_kind_names(e.kind);
            }
            WireResult {
                request_id: result.request_id,
                output: None,
                error: Some(WireError { kind: e.kind.name(), message: e.message, details: e.details }),
            }
        },
    }
}

/// Reads a result back from the wire. A record that is not readable is
/// refused as a `TransportDecodeError`.
pub fn decode_result(wire: WireResult) -> (res: Result<ToolCallResult, ToolError>)
    ensures
        readable(wire) ==> (res matches Ok(result) && encodes(wire, result)),
        !readable(wire) ==> fails_with(
            res,
            ErrorKind::TransportDecodeError,
            "malformed result"@,
        ),
{
    match (wire.output, wire.error) {
        (Some(output), None) => Ok(
            ToolCallResult { request_id: wire.request_id, outcome: Ok(output) },
        ),
        (None, Some(w)) => match parse_kind(&w.kind) {
            Some(kind) => {
                proof {
                    lemma_kind_names(kind);
                    lemma_name_of_kind(kind, w.kind@);
                }
                Ok(
                    ToolCallResult {
                        request_id: wire.request_id,
                        outcome: Err(ToolError { kind, message: w.message, details: w.details }),
                    },
                )
            },
            None => Err(ToolError::new(ErrorKind::TransportDecodeError, "malformed result")),
        },
        _ => Err(ToolError::new(ErrorKind::TransportDecodeError, "malformed result")),
    }
}

/// A name that reads as a kind is that kind's wire name.
pub proof fn lemma_name_of_kind(kind: ErrorKind, name: Seq<char>)
    requires
        kind_named(name) == Some(kind),
    ensures
        name == kind.spec_name(),
{
}

/// A result that is encoded and then decoded comes back as it was: nothing
/// of its output or error is lost on the way.
pub proof fn lemma_round_trip(result: ToolCallResult, wire: WireResult, back: ToolCallResult)
    requires
        encodes(wire, result),
        encodes(wire, back),
    ensures
        back == result,
{
    match result.outcome {
        Ok(_) => {},
        Err(e) => {
            let b = back.outcome->Err_0;
            lemma_kind_names(e.kind);
            lemma_kind_names(b.kind);
        },
    }
}

} // verus!
