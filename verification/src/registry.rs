//! The registry that maps tool names to handlers, and dispatch through it.

use vstd::prelude::*;
use crate::error::{fails_with, ErrorKind, ToolError};
use crate::example_mcp::{calculation, CalculationRequest, ExampleTools};
use crate::message::{ToolCallRequest, ToolOutput};
use crate::schema::{
    conforms, field_fits, get_field, lookup, validate, Field, ParamKind, ParamSpec, ToolDescriptor,
    Value,
};
use crate::session::Session;

verus! {

/// The handlers this system knows: one that works on the session's state and
/// one that is a pure function of its parameters.
#[derive(Clone, Copy, Debug, PartialEq, Eq, Structural)]
pub enum ToolHandler {
    Counter,
    Calculator,
}

/// A registered tool: how it is described and what runs it.
#[derive(Clone, Debug, PartialEq, Eq)]
pub struct Tool {
    pub descriptor: ToolDescriptor,
    pub handler: ToolHandler,
}

/// The registered tools, no two with the same name.
#[derive(Clone, Debug)]
pub struct ToolRegistry {
    pub tools: Vec<Tool>,
}

/// The operands and operation that a payload holds, if it has what the
/// calculator reads: 32-bit integers `a` and `b` and a text `operation`.
pub open spec fn calculation_request(params: Seq<Field>) -> Option<(int, int, Seq<char>)> {
    match (lookup(params, "a"@), lookup(params, "b"@), lookup(params, "operation"@)) {
        (Some(Value::Int(a)), Some(Value::Int(b)), Some(Value::Text(operation))) => if i32::MIN
            <= a <= i32::MAX && i32::MIN <= b <= i32::MAX {
            Some((a as int, b as int, operation@))
        } else {
            None
        },
        _ => None,
    }
}

/// Whether `output` is the calculator's answer `result` for `operation`.
pub open spec fn is_calculation(output: ToolOutput, result: int, operation: Seq<char>) -> bool {
    output matches ToolOutput::Calculation(r) && r.result == result && r.operation@ == operation
}

impl ToolHandler {
    /// What a call of this handler does: `post` is the state it leaves and
    /// `res` what it returns, for state `pre` and payload `params`.
    ///
    /// The counter returns its value and steps it by one, wrapping; on
    /// poisoned state it changes nothing and fails. The calculator never
    /// changes state; it fails on a payload it cannot read and on an
    /// operation it does not know.
    pub open spec fn outcome(
        self,
        pre: ExampleTools,
        params: Seq<Field>,
        post: ExampleTools,
        res: Result<ToolOutput, ToolError>,
    ) -> bool {
        match self {
            ToolHandler::Counter => if pre.poisoned {
                post == pre && fails_with(
                    res,
                    ErrorKind::InternalStateError,
                    "counter mutex poisoned"@,
                )
            } else {
                pre.counted(pre.counter, post) && res == Ok::<ToolOutput, ToolError>(
                    ToolOutput::Count(pre.counter),
                )
            },
            ToolHandler::Calculator => post == pre && match calculation_request(params) {
                None => fails_with(
                    res,
                    ErrorKind::ToolExecutionError,
                    "Malformed calculation request"@,
                ),
                Some((a, b, operation)) => match calculation(a, b, operation) {
                    Some(n) => res is Ok && is_calculation(res->Ok_0, n, operation),
                    None => fails_with(res, ErrorKind::ToolExecutionError, "Unknown operation"@),
                },
            },
        }
    }

    /// Runs the handler on a session's tool state.
    pub fn invoke(self, tools: &mut ExampleTools, params: &Vec<Field>) -> (res: Result<
        ToolOutput,
        ToolError,
    >)
        ensures
            self.outcome(*old(tools), params@, *final(tools), res),
    {
        match self {
            ToolHandler::Counter => match tools.increment() {
                Ok(value) => Ok(ToolOutput::Count(value)),
                Err(e) => Err(e),
            },
            ToolHandler::Calculator => match read_calculation(params) {
                None => Err(
                    ToolError::new(ErrorKind::ToolExecutionError, "Malformed calculation request"),
                ),
                Some(request) => match tools.calculate(request) {
                    Ok(result) => Ok(ToolOutput::Calculation(result)),
                    Err(e) => Err(
                        ToolError {
                            kind: ErrorKind::ToolExecutionError,
                            message: e.message,
                            details: e.details,
                        },
                    ),
                },
            },
        }
    }
}

/// Reads the calculator's request out of a payload.
pub fn read_calculation(params: &Vec<Field>) -> (request: Option<CalculationRequest>)
    ensures
        match calculation_request(params@) {
            Some((a, b, operation)) => request is Some && request->Some_0.a == a
                && request->Some_0.b == b && request->Some_0.operation@ == operation,
            None => request is None,
        },
{
    let a = get_field(params, &"a".to_owned());
    let b = get_field(params, &"b".to_owned());
    let operation = get_field(params, &"operation".to_owned());
    match (a, b, operation) {
        (Some(Value::Int(a)), Some(Value::Int(b)), Some(Value::Text(operation))) => {
            if -2147483648 <= *a && *a <= 2147483647 && -2147483648 <= *b && *b <= 2147483647 {
                Some(
                    CalculationRequest {
                        a: narrow(*a),
                        b: narrow(*b),
                        operation: operation.clone(),
                    },
                )
            } else {
                None
            }
        },
        _ => None,
    }
}

/// A 64-bit integer that fits in 32 bits, as a 32-bit integer.
pub fn narrow(n: i64) -> (m: i32)
    requires
        i32::MIN <= n <= i32::MAX,
    ensures
        m == n,
{
    n as i32
}

/// Whether `d` describes the `increment` tool: no parameters, and one
/// 32-bit signed integer, `value`, as result.
pub open spec fn is_counter_descriptor(d: ToolDescriptor) -> bool {
    &&& d.name@ == "increment"@
    &&& d.description@ == "Increment the counter by 1"@
    &&& d.input_schema@.len() == 0
    &&& d.result_schema@.len() == 1
    &&& d.result_schema@[0].name@ == "value"@
    &&& d.result_schema@[0].kind == ParamKind::Integer
}

/// The descriptor of the `increment` tool.
pub fn counter_descriptor() -> (d: ToolDescriptor)
    ensures
        is_counter_descriptor(d),
{
    let mut result_schema: Vec<ParamSpec> = Vec::new();
    result_schema.push(ParamSpec { name: "value".to_owned(), kind: ParamKind::Integer });
    ToolDescriptor {
        name: "increment".to_owned(),
        description: "Increment the counter by 1".to_owned(),
        input_schema: Vec::new(),
        result_schema,
    }
}

/// Whether `options` are the two operations of the calculator.
pub open spec fn operations(options: Seq<String>) -> bool {
    options.len() == 2 && options[0]@ == "add"@ && options[1]@ == "multiply"@
}

/// Whether `schema` is the calculator's input: `a`, `b`, and `operation`.
pub open spec fn calculator_input(schema: Seq<ParamSpec>) -> bool {
    &&& schema.len() == 3
    &&& schema[0].name@ == "a"@
    &&& schema[0].kind == ParamKind::Integer
    &&& schema[1].name@ == "b"@
    &&& schema[1].kind == ParamKind::Integer
    &&& schema[2].name@ == "operation"@
    &&& schema[2].kind matches ParamKind::Choice(options)
    &&& operations(options@)
}

/// Whether `d` describes the `calculate` tool: its input, and the integer
/// `result` and the text `operation` as result.
pub open spec fn is_calculator_descriptor(d: ToolDescriptor) -> bool {
    &&& d.name@ == "calculate"@
    &&& d.description@ == "Perform a calculation"@
    &&& calculator_input(d.input_schema@)
    &&& d.result_schema@.len() == 2
    &&& d.result_schema@[0].name@ == "result"@
    &&& d.result_schema@[0].kind == ParamKind::Integer
    &&& d.result_schema@[1].name@ == "operation"@
    &&& d.result_schema@[1].kind == ParamKind::Text
}

/// The descriptor of the `calculate` tool.
pub fn calculator_descriptor() -> (d: ToolDescriptor)
    ensures
        is_calculator_descriptor(d),
{
    let mut options: Vec<String> = Vec::new();
    options.push("add".to_owned());
    options.push("multiply".to_owned());
    let mut input_schema: Vec<ParamSpec> = Vec::new();
    input_schema.push(ParamSpec { name: "a".to_owned(), kind: ParamKind::Integer });
    input_schema.push(ParamSpec { name: "b".to_owned(), kind: ParamKind::Integer });
    input_schema.push(ParamSpec { name: "operation".to_owned(), kind: ParamKind::Choice(options) });
    let mut result_schema: Vec<ParamSpec> = Vec::new();
    result_schema.push(ParamSpec { name: "result".to_owned(), kind: ParamKind::Integer });
    result_schema.push(ParamSpec { name: "operation".to_owned(), kind: ParamKind::Text });
    ToolDescriptor {
        name: "calculate".to_owned(),
        description: "Perform a calculation".to_owned(),
        input_schema,
        result_schema,
    }
}

/// What the two tools hand back fits the result schemas under which they are
/// described: a count laid out as a structured value fits the counter's, a
/// calculation the calculator's.
pub proof fn lemma_output_fits_schema(d: ToolDescriptor, output: ToolOutput, fields: Seq<Field>)
    requires
        output.shown_as(fields),
        output is Count ==> is_counter_descriptor(d),
        output is Calculation ==> is_calculator_descriptor(d),
    ensures
        conforms(d.result_schema@, fields),
{
    match output {
        ToolOutput::Count(_) => {
            assert(field_fits(d.result_schema@[0], fields[0]));
        },
        ToolOutput::Calculation(_) => {
            assert(field_fits(d.result_schema@[0], fields[0]));
            assert(field_fits(d.result_schema@[1], fields[1]));
        },
    }
}

impl ToolRegistry {
    /// No two tools share a name.
    pub open spec fn wf(&self) -> bool {
        forall|i: int, j: int|
            0 <= i < j < self.tools@.len() ==> (#[trigger] self.tools@[i]).descriptor.name@ != (
            #[trigger] self.tools@[j]).descriptor.name@
    }

    /// Whether a tool of this name is registered.
    pub open spec fn has(&self, name: Seq<char>) -> bool {
        exists|i: int|
            0 <= i < self.tools@.len() && (#[trigger] self.tools@[i]).descriptor.name@ == name
    }

    /// Where the tool of this name stands.
    pub open spec fn position(&self, name: Seq<char>) -> int {
        choose|i: int|
            0 <= i < self.tools@.len() && (#[trigger] self.tools@[i]).descriptor.name@ == name
    }

    /// The tool registered under this name.
    pub open spec fn tool(&self, name: Seq<char>) -> Tool {
        self.tools@[self.position(name)]
    }

    /// Why a request is refused before any handler runs, if it is.
    pub open spec fn refusal(&self, name: Seq<char>, params: Seq<Field>) -> Option<ErrorKind> {
        if !self.has(name) {
            Some(ErrorKind::ToolNotFound)
        } else if !conforms(self.tool(name).descriptor.input_schema@, params) {
            Some(ErrorKind::InvalidParams)
        } else {
            None
        }
    }

    /// The message that goes with a refusal.
    pub open spec fn refusal_message(kind: ErrorKind) -> Seq<char> {
        if kind == ErrorKind::ToolNotFound {
            "Unknown tool"@
        } else {
            "Parameters do not match the input schema"@
        }
    }

    /// A registry without tools.
    pub fn new() -> (registry: ToolRegistry)
        ensures
            registry.wf(),
            registry.tools@.len() == 0,
    {
        ToolRegistry { tools: Vec::new() }
    }

    /// The number of registered tools.
    pub fn len(&self) -> (n: usize)
        ensures
            n == self.tools@.len(),
    {
        self.tools.len()
    }

    /// Where the tool of this name stands, if one is registered.
    pub fn find(&self, name: &String) -> (at: Option<usize>)
        requires
            self.wf(),
        ensures
            match at {
                Some(i) => self.has(name@) && i == self.position(name@),
                None => !self.has(name@),
            },
    {
        let mut i: usize = 0;
        while i < self.tools.len()
            invariant
                self.wf(),
                i <= self.tools@.len(),
                forall|j: int| 0 <= j < i ==> (#[trigger] self.tools@[j]).descriptor.name@ != name@,
            decreases self.tools@.len() - i,
        {
            if self.tools[i].descriptor.name == *name {
                assert(self.tools@[i as int].descriptor.name@ == name@);
                return Some(i);
            }
            i += 1;
        }
        None
    }

    /// Adds a tool. A name that is already registered is refused as
    /// `DuplicateTool`, and the registry stays as it was.
    pub fn register(&mut self, descriptor: ToolDescriptor, handler: ToolHandler) -> (res: Result<
        (),
        ToolError,
    >)
        requires
            old(self).wf(),
        ensures
            final(self).wf(),
            old(self).has(descriptor.name@) ==> *final(self) == *old(self) && fails_with(
                res,
                ErrorKind::DuplicateTool,
                "Tool already registered"@,
            ),
            !old(self).has(descriptor.name@) ==> res is Ok && final(self).tools@ == old(
                self,
            ).tools@.push(Tool { descriptor, handler }),
    {
        if self.find(&descriptor.name).is_some() {
            return Err(ToolError::new(ErrorKind::DuplicateTool, "Tool already registered"));
        }
        self.tools.push(Tool { descriptor, handler });
        Ok(())
    }

    /// The registry of this system: `increment` and `calculate`.
    pub fn standard() -> (registry: ToolRegistry)
        ensures
            registry.wf(),
            registry.tools@.len() == 2,
            is_counter_descriptor(registry.tools@[0].descriptor),
            registry.tools@[0].handler == ToolHandler::Counter,
            is_calculator_descriptor(registry.tools@[1].descriptor),
            registry.tools@[1].handler == ToolHandler::Calculator,
    {
        let mut registry = ToolRegistry::new();
        let counter = counter_descriptor();
        let calculator = calculator_descriptor();
        proof {
            reveal_strlit("increment");
            reveal_strlit("calculate");
            assert("increment"@[0] != "calculate"@[0]);
        }
        let _ = registry.register(counter, ToolHandler::Counter);
        assert(registry.tools@[0].descriptor.name@ == "increment"@);
        let _ = registry.register(calculator, ToolHandler::Calculator);
        registry
    }

    /// Checks a request against the registry without running anything: the
    /// place of the tool to run, or the error that refuses the request.
    pub fn check(&self, request: &ToolCallRequest) -> (res: Result<usize, ToolError>)
        requires
            self.wf(),
        ensures
            match self.refusal(request.tool_name@, request.params@) {
                Some(kind) => fails_with(res, kind, Self::refusal_message(kind)),
                None => res is Ok && res->Ok_0 == self.position(request.tool_name@)
                    && res->Ok_0 < self.tools@.len(),
            },
    {
        match self.find(&request.tool_name) {
            None => Err(ToolError::new(ErrorKind::ToolNotFound, "Unknown tool")),
            Some(i) => {
                if validate(&self.tools[i].descriptor.input_schema, &request.params) {
                    Ok(i)
                } else {
                    Err(
                        ToolError::new(
                            ErrorKind::InvalidParams,
                            "Parameters do not match the input schema",
                        ),
                    )
                }
            },
        }
    }

    /// Routes a request to its handler. An unknown tool is refused as
    /// `ToolNotFound`, parameters that do not fit the tool's input schema as
    /// `InvalidParams`; either way the session is left as it was. Otherwise
    /// the handler runs on the session's state. The registry never changes.
    pub fn dispatch(&self, session: &mut Session, request: &ToolCallRequest) -> (res: Result<
        ToolOutput,
        ToolError,
    >)
        requires
            self.wf(),
        ensures
            final(session).id == old(session).id,
            final(session).created_at == old(session).created_at,
            final(session).last_active == old(session).last_active,
            match self.refusal(request.tool_name@, request.params@) {
                Some(kind) => *final(session) == *old(session) && fails_with(
                    res,
                    kind,
                    Self::refusal_message(kind),
                ),
                None => self.tool(request.tool_name@).handler.outcome(
                    old(session).tools,
                    request.params@,
                    final(session).tools,
                    res,
                ),
            },
    {
        match self.check(request) {
            Err(e) => Err(e),
            Ok(i) => {
                let handler = self.tools[i].handler;
                let mut tools = session.tools;
                let res = handler.invoke(&mut tools, &request.params);
                session.tools = tools;
                res
            },
        }
    }
}

} // verus!
