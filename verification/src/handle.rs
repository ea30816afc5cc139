//! Decisions behind the assertion handle of a running mock portal.
use vstd::prelude::*;

use crate::portal::is_recorded_call;
use crate::records::{Call, RestoreAction};
use crate::value::{lookup, Options, Value};

verus! {

/// Errors from waiting on mock portal state.
#[derive(Debug, Clone, Copy, PartialEq, Eq, Structural)]
pub enum WaitError {
    /// The deadline passed with fewer calls recorded than expected.
    Timeout { expected: usize, actual: usize },
}

/// One poll of a wait for `expected` recorded calls: `Some(Ok)` once `count`
/// reaches `expected`, `Some(Err)` when the deadline has passed before that,
/// and `None` to keep waiting.
pub fn wait_step(count: usize, expected: usize, past_deadline: bool) -> (r: Option<Result<(), WaitError>>)
    ensures
        count >= expected ==> r == Some(Ok::<(), WaitError>(())),
        count < expected && past_deadline ==> r == Some(
            Err::<(), WaitError>(WaitError::Timeout { expected, actual: count }),
        ),
        count < expected && !past_deadline ==> r is None,
{
    if count >= expected {
        Some(Ok(()))
    } else if past_deadline {
        Some(Err(WaitError::Timeout { expected, actual: count }))
    } else {
        None
    }
}

/// Whether a call explicitly asked for a prompt through `restore_policy.default_action`.
pub open spec fn asks_prompt(c: Call) -> bool {
    c.restore_policy matches Some(p) && p.default_action == Some(RestoreAction::Prompt)
}

/// A recorded call asks for a prompt exactly when its client sent a
/// `restore_policy` whose `default_action` is the code 0: a call without a
/// policy, with a policy that names no default action, or with a skip, error
/// or unknown default is never reported.
pub proof fn prompt_call_sent_default_prompt(c: Call, h: Seq<char>, o: Options)
    requires
        is_recorded_call(c, h, o),
    ensures
        asks_prompt(c) <==> (lookup(o@, "restore_policy"@) matches Some(Value::Dict(e)) && lookup(
            e@,
            "default_action"@,
        ) == Some(Value::U32(0))),
{
}

/// The index of the first recorded call whose restore policy's default action is prompt.
pub fn first_prompt_call(calls: &Vec<Call>) -> (r: Option<usize>)
    ensures
        match r {
            Some(i) => i < calls@.len() && asks_prompt(calls@[i as int]) && forall|j: int|
                0 <= j < i ==> !asks_prompt(#[trigger] calls@[j]),
            None => forall|j: int| 0 <= j < calls@.len() ==> !asks_prompt(#[trigger] calls@[j]),
        },
{
    let n = calls.len();
    for i in 0..n
        invariant
            n == calls@.len(),
            forall|j: int| 0 <= j < i ==> !asks_prompt(#[trigger] calls@[j]),
    {
        let prompt = match &calls[i].restore_policy {
            Some(p) => match p.default_action {
                Some(RestoreAction::Prompt) => true,
                _ => false,
            },
            None => false,
        };
        if prompt {
            return Some(i);
        }
    }
    None
}

} // verus!
