//! The two example tools: a counter that lives in a session and a calculator
//! that needs no state.

use vstd::prelude::*;
use crate::error::{fails_with, ErrorKind, ToolError};

verus! {

/// The value in `[-2^31, 2^31)` that a 32-bit signed integer holds after
/// arithmetic whose exact result is `n`.
pub open spec fn wrap32(n: int) -> int {
    let m = n % 0x1_0000_0000;
    if m > 0x7fff_ffff {
        m - 0x1_0000_0000
    } else {
        m
    }
}

/// The tool state of one session: a 32-bit signed counter that starts at 0.
/// `poisoned` marks state that was found unusable; no tool touches it then.
#[derive(Clone, Copy, Debug, PartialEq, Eq, Structural)]
pub struct ExampleTools {
    pub counter: i32,
    pub poisoned: bool,
}

/// Input of the `calculate` tool: two operands and the operation's name,
/// `"add"` or `"multiply"`.
#[derive(Clone, Debug, PartialEq, Eq)]
pub struct CalculationRequest {
    pub a: i32,
    pub b: i32,
    pub operation: String,
}

/// Output of the `calculate` tool.
#[derive(Clone, Debug, PartialEq, Eq)]
pub struct CalculationResult {
    pub result: i32,
    pub operation: String,
}

/// What a server says of itself to a client that connects.
#[derive(Clone, Debug, PartialEq, Eq)]
pub struct ServerInfo {
    pub instructions: String,
    pub tools_enabled: bool,
}

/// What `calculate` computes: the wrapped sum or product, or nothing for an
/// operation it does not know.
pub open spec fn calculation(a: int, b: int, operation: Seq<char>) -> Option<int> {
    if operation == "add"@ {
        Some(wrap32(a + b))
    } else if operation == "multiply"@ {
        Some(wrap32(a * b))
    } else {
        None
    }
}

impl ExampleTools {
    /// One step of the counter: `value` is what the call returns, `post` the
    /// state it leaves.
    pub open spec fn counted(self, value: i32, post: ExampleTools) -> bool {
        value == self.counter && post.counter == wrap32(self.counter + 1) && !post.poisoned
    }

    /// Fresh tool state: the counter at 0.
    pub fn new() -> (tools: ExampleTools)
        ensures
            tools == (ExampleTools { counter: 0, poisoned: false }),
    {
        ExampleTools { counter: 0, poisoned: false }
    }

    /// Marks the state as unusable. Every later `increment` fails.
    pub fn poison(&mut self)
        ensures
            *final(self) == (ExampleTools { counter: old(self).counter, poisoned: true }),
    {
        self.poisoned = true;
    }

    /// Returns the counter's value and then adds one to it, wrapping at the
    /// ends of the 32-bit signed range. Poisoned state is left as it is and
    /// reported as an `InternalStateError`.
    pub fn increment(&mut self) -> (res: Result<i32, ToolError>)
        ensures
            old(self).poisoned ==> *final(self) == *old(self) && fails_with(
                res,
                ErrorKind::InternalStateError,
                "counter mutex poisoned"@,
            ),
            !old(self).poisoned ==> res == Ok::<i32, ToolError>(old(self).counter) && old(
                self,
            ).counted(old(self).counter, *final(self)),
    {
        if self.poisoned {
            return Err(ToolError::new(ErrorKind::InternalStateError, "counter mutex poisoned"));
        }
        let value: i32 = self.counter;
        self.counter = value.wrapping_add(1);
        Ok(value)
    }

    /// Adds or multiplies the two operands, wrapping at the ends of the 32-bit
    /// signed range, and names the operation in the result. Any other
    /// operation is refused as `InvalidParams`. Reads and changes no state.
    pub fn calculate(&self, params: CalculationRequest) -> (res: Result<CalculationResult, ToolError>)
        ensures
            match calculation(params.a as int, params.b as int, params.operation@) {
                Some(n) => res matches Ok(r) && r.result == n && r.operation@
                    == params.operation@,
                None => fails_with(res, ErrorKind::InvalidParams, "Unknown operation"@),
            },
    {
        if params.operation == "add".to_owned() {
            let result: i32 = params.a.wrapping_add(params.b);
            Ok(CalculationResult { result, operation: params.operation })
        } else if params.operation == "multiply".to_owned() {
            let result: i32 = params.a.wrapping_mul(params.b);
            Ok(CalculationResult { result, operation: params.operation })
        } else {
            Err(ToolError::new(ErrorKind::InvalidParams, "Unknown operation"))
        }
    }

    /// The instructions shown to clients, and that tools are offered.
    pub fn get_info(&self) -> (info: ServerInfo)
        ensures
            info.instructions@ == "Combined tools: counter and calculator"@,
            info.tools_enabled,
    {
        ServerInfo {
            instructions: "Combined tools: counter and calculator".to_owned(),
            tools_enabled: true,
        }
    }
}

/// After `k` steps from 0 the counter holds `k`, wrapped to 32 bits.
proof fn lemma_count_after(states: Seq<ExampleTools>, values: Seq<i32>, k: int)
    requires
        states.len() == values.len() + 1,
        states[0].counter == 0,
        forall|i: int| 0 <= i < values.len() ==> (#[trigger] states[i]).counted(values[i], states[i + 1]),
        0 <= k <= values.len(),
    ensures
        states[k].counter == wrap32(k),
    decreases k,
{
    if k > 0 {
        lemma_count_after(states, values, k - 1);
        assert(states[k - 1].counted(values[k - 1], states[k - 1 + 1]));
    }
}

/// Calls of `increment` that follow one another on one counter, from a fresh
/// state, return 0, 1, 2, ... in the order in which they are served, and
/// leave the number of calls in the counter, all wrapped to 32 bits. Up to
/// 2^31 - 1 calls nothing wraps: the values are exactly `0..n`, each once,
/// with no gap, and the counter ends at `n`.
///
/// `states[i]` is the state before the call `i`, `values[i]` what it returns.
pub proof fn lemma_serial_increments(states: Seq<ExampleTools>, values: Seq<i32>)
    requires
        states.len() == values.len() + 1,
        states[0].counter == 0,
        forall|i: int| 0 <= i < values.len() ==> (#[trigger] states[i]).counted(values[i], states[i + 1]),
    ensures
        forall|i: int| 0 <= i < values.len() ==> #[trigger] values[i] == wrap32(i),
        states[values.len() as int].counter == wrap32(values.len() as int),
        values.len() <= i32::MAX ==> states[values.len() as int].counter == values.len(),
        values.len() <= i32::MAX ==> forall|i: int| 0 <= i < values.len() ==> #[trigger] values[i] == i,
        values.len() <= i32::MAX ==> forall|i: int, j: int|
            0 <= i < j < values.len() ==> #[trigger] values[i] != #[trigger] values[j],
{
    assert forall|i: int| 0 <= i < values.len() implies #[trigger] values[i] == wrap32(i) by {
        lemma_count_after(states, values, i);
        assert(states[i].counted(values[i], states[i + 1]));
    }
    lemma_count_after(states, values, values.len() as int);
}

} // verus!
