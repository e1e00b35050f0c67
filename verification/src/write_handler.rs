//! The write handler: what the protocol stack's write callback decides.
//!
//! The stack delivers a batch of write requests for the one writable
//! characteristic, together with a count. The handler checks the batch,
//! commits each value to the actuator in the order given, and answers with
//! one status. A batch that is malformed or holds a value out of range is
//! rejected as a whole, before anything is committed.

use crate::actuator::{level_of, ActuatorGuard, ActuatorState, PinLevel};
use vstd::prelude::*;

verus! {

/// One write request as the protocol stack delivers it.
#[derive(Clone, Copy, Debug, PartialEq, Eq, Structural)]
pub struct WriteRequest {
    /// The byte that backs the boolean: 0 for off, 1 for on.
    pub raw: u8,
    /// Opaque token of the caller, handed through untouched.
    pub context: u64,
}

/// A decoded write: the target value and the caller's token.
#[derive(Clone, Copy, Debug, PartialEq, Eq, Structural)]
pub struct WriteCommand {
    pub value: bool,
    pub context: u64,
}

/// Status returned to the protocol stack.
#[derive(Clone, Copy, Debug, PartialEq, Eq, Structural)]
pub enum WriteStatus {
    Success,
    Failure,
}

/// What to answer when a well-formed write reaches an actuator that has no
/// handle yet. The write is dropped either way.
#[derive(Clone, Copy, Debug, PartialEq, Eq, Structural)]
pub enum UnboundPolicy {
    /// Report success: an early write is tolerated silently.
    ReportSuccess,
    /// Report failure, so that the controller learns of the dropped write.
    ReportFailure,
}

/// The command that a request decodes to, or nothing where its byte is no
/// boolean.
pub open spec fn decoded(request: WriteRequest) -> Option<WriteCommand> {
    if request.raw <= 1 {
        Some(WriteCommand { value: request.raw == 1, context: request.context })
    } else {
        None
    }
}

/// A batch is well formed where the count is positive and is the number of
/// requests delivered, and every request holds a boolean.
pub open spec fn well_formed(requests: Seq<WriteRequest>, count: int) -> bool {
    &&& count >= 1
    &&& count == requests.len()
    &&& forall|i: int| 0 <= i < requests.len() ==> decoded(#[trigger] requests[i]) is Some
}

/// The values of a batch, in the order given.
pub open spec fn values_of(requests: Seq<WriteRequest>) -> Seq<bool> {
    Seq::new(requests.len(), |i: int| decoded(requests[i]).unwrap().value)
}

/// The status for a well-formed write that found the actuator in `state`.
pub open spec fn status_for(state: ActuatorState, policy: UnboundPolicy) -> WriteStatus {
    if state.initialized || policy == UnboundPolicy::ReportSuccess {
        WriteStatus::Success
    } else {
        WriteStatus::Failure
    }
}

/// The levels that the writes `values` drive the pin to, one after the
/// other: one level for each write to a bound actuator, none otherwise.
pub open spec fn levels_for(state: ActuatorState, values: Seq<bool>) -> Seq<PinLevel> {
    if state.initialized {
        Seq::new(values.len(), |i: int| level_of(values[i]))
    } else {
        Seq::empty()
    }
}

/// The status of a batch.
pub open spec fn batch_status(
    state: ActuatorState,
    requests: Seq<WriteRequest>,
    count: int,
    policy: UnboundPolicy,
) -> WriteStatus {
    if well_formed(requests, count) {
        status_for(state, policy)
    } else {
        WriteStatus::Failure
    }
}

/// The state of the actuator after a batch: every value committed in turn
/// where the batch is well formed, nothing changed where it is not.
pub open spec fn batch_state(
    state: ActuatorState,
    requests: Seq<WriteRequest>,
    count: int,
) -> ActuatorState {
    if well_formed(requests, count) {
        state.write_all(values_of(requests))
    } else {
        state
    }
}

/// The levels to drive the pin to after a batch, in order.
pub open spec fn batch_levels(
    state: ActuatorState,
    requests: Seq<WriteRequest>,
    count: int,
) -> Seq<PinLevel> {
    if well_formed(requests, count) {
        levels_for(state, values_of(requests))
    } else {
        Seq::empty()
    }
}

impl WriteCommand {
    /// Decodes one request; `None` where its byte is neither 0 nor 1.
    pub fn decode(request: &WriteRequest) -> (command: Option<WriteCommand>)
        ensures
            command == decoded(*request),
    {
        if request.raw <= 1 {
            Some(WriteCommand { value: request.raw == 1, context: request.context })
        } else {
            None
        }
    }
}

/// Result of one write.
#[derive(Clone, Copy, Debug, PartialEq, Eq, Structural)]
pub struct WriteOutcome {
    pub status: WriteStatus,
    /// The level to drive the pin to, if any.
    pub action: Option<PinLevel>,
}

/// Result of a batch of writes.
#[derive(Debug, PartialEq, Eq)]
pub struct BatchOutcome {
    pub status: WriteStatus,
    /// The levels to drive the pin to, in order.
    pub levels: Vec<PinLevel>,
}

/// The handler behind the write callback of the outlet service.
#[derive(Clone, Copy, Debug, PartialEq, Eq, Structural)]
pub struct WriteHandler {
    pub policy: UnboundPolicy,
}

impl WriteHandler {
    /// A handler with the given answer to writes that come too early.
    pub fn new(policy: UnboundPolicy) -> (handler: Self)
        ensures
            handler.policy == policy,
    {
        WriteHandler { policy }
    }

    /// Whether `count` requests in `requests` make a well-formed batch.
    pub fn accepts(requests: &Vec<WriteRequest>, count: i32) -> (ok: bool)
        ensures
            ok == well_formed(requests@, count as int),
    {
        if count < 1 {
            return false;
        }
        if requests.len() > i32::MAX as usize || requests.len() != count as usize {
            return false;
        }
        let mut i: usize = 0;
        while i < requests.len()
            invariant
                i <= requests.len(),
                forall|j: int| 0 <= j < i ==> decoded(#[trigger] requests@[j]) is Some,
            decreases requests.len() - i,
        {
            if WriteCommand::decode(&requests[i]).is_none() {
                return false;
            }
            i += 1;
        }
        true
    }

    /// Handles one decoded write: commits the value to the actuator and
    /// says which level to drive the pin to. An actuator without a handle
    /// is left as it is; the status then follows the handler's policy.
    pub fn on_write<P>(&self, guard: &mut ActuatorGuard<P>, command: WriteCommand) -> (outcome:
        WriteOutcome)
        ensures
            final(guard).handle() == old(guard).handle(),
            final(guard)@ == old(guard)@.write(command.value),
            outcome.action == old(guard)@.drive(command.value),
            outcome.status == status_for(old(guard)@, self.policy),
    {
        match guard.try_set(command.value) {
            Ok(level) => WriteOutcome { status: WriteStatus::Success, action: Some(level) },
            Err(_) => {
                let status = match self.policy {
                    UnboundPolicy::ReportSuccess => WriteStatus::Success,
                    UnboundPolicy::ReportFailure => WriteStatus::Failure,
                };
                WriteOutcome { status, action: None }
            },
        }
    }

    /// Handles the batch that the protocol stack delivered: `requests`, of
    /// which the stack says there are `count`. A well-formed batch is
    /// committed value by value; any other batch is rejected with a failure
    /// status and leaves the actuator untouched.
    pub fn on_batch<P>(
        &self,
        guard: &mut ActuatorGuard<P>,
        requests: &Vec<WriteRequest>,
        count: i32,
    ) -> (outcome: BatchOutcome)
        ensures
            final(guard).handle() == old(guard).handle(),
            final(guard)@ == batch_state(old(guard)@, requests@, count as int),
            outcome.levels@ == batch_levels(old(guard)@, requests@, count as int),
            outcome.status == batch_status(old(guard)@, requests@, count as int, self.policy),
    {
        let mut levels: Vec<PinLevel> = Vec::new();
        if !Self::accepts(requests, count) {
            return BatchOutcome { status: WriteStatus::Failure, levels };
        }
        let ghost before = guard@;
        let ghost values = values_of(requests@);
        let mut status = WriteStatus::Success;
        let mut i: usize = 0;
        while i < requests.len()
            invariant
                i <= requests.len(),
                well_formed(requests@, count as int),
                values == values_of(requests@),
                guard.handle() == old(guard).handle(),
                before == old(guard)@,
                guard@ == before.write_all(values.take(i as int)),
                guard@.initialized == before.initialized,
                levels@ == levels_for(before, values.take(i as int)),
                i > 0 ==> status == status_for(before, self.policy),
            decreases requests.len() - i,
        {
            proof {
                let next = values.take(i + 1);
                assert(next.drop_last() == values.take(i as int));
                assert(decoded(requests@[i as int]) == Some(
                    WriteCommand { value: next.last(), context: requests@[i as int].context },
                ));
            }
            if let Some(command) = WriteCommand::decode(&requests[i]) {
                let outcome = self.on_write(guard, command);
                status = outcome.status;
                if let Some(level) = outcome.action {
                    levels.push(level);
                }
            }
            i += 1;
        }
        proof {
            assert(values.take(requests.len() as int) == values);
        }
        BatchOutcome { status, levels }
    }
}

/// A write to a bound actuator succeeds and is what a reader sees next.
/// Whatever the policy, a well-formed write that reaches an actuator with a
/// handle yields a success status, and the committed value is then the
/// value written: on for `true`, off for `false`.
pub proof fn lemma_write_is_committed(state: ActuatorState, value: bool, policy: UnboundPolicy)
    requires
        state.initialized,
    ensures
        status_for(state, policy) == WriteStatus::Success,
        state.write(value).get() == Some(value),
        state.drive(value) == Some(level_of(value)),
{
}

/// A tolerant handler never fails a well-formed write, bound or not.
pub proof fn lemma_tolerant_handler_succeeds(state: ActuatorState)
    ensures
        status_for(state, UnboundPolicy::ReportSuccess) == WriteStatus::Success,
{
}

/// A rejected batch changes nothing: the state stays and no level is
/// driven.
pub proof fn lemma_rejected_batch_changes_nothing(
    state: ActuatorState,
    requests: Seq<WriteRequest>,
    count: int,
    policy: UnboundPolicy,
)
    requires
        !well_formed(requests, count),
    ensures
        batch_status(state, requests, count, policy) == WriteStatus::Failure,
        batch_state(state, requests, count) == state,
        batch_levels(state, requests, count).len() == 0,
{
}

/// After a well-formed batch to a bound actuator the committed value is
/// the value of its last request, and the last level driven stands for it.
pub proof fn lemma_batch_commits_last_value(
    state: ActuatorState,
    requests: Seq<WriteRequest>,
    count: int,
    policy: UnboundPolicy,
)
    requires
        state.initialized,
        well_formed(requests, count),
    ensures
        batch_status(state, requests, count, policy) == WriteStatus::Success,
        batch_state(state, requests, count).get() == Some(requests.last().raw == 1),
        batch_levels(state, requests, count).len() == requests.len(),
        batch_levels(state, requests, count).last() == level_of(requests.last().raw == 1),
{
    crate::actuator::lemma_last_write_wins(state, values_of(requests));
}

} // verus!
