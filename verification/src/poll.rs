use vstd::prelude::*;

use crate::error::ErrorKind;

verus! {

/// What one non-blocking kernel attempt reported.
#[derive(Clone, Copy, Debug, PartialEq, Eq, Structural)]
pub enum SysOutcome {
    /// The call succeeded and transferred (or dequeued) this many bytes or items.
    Transferred(usize),
    /// The call could make no progress right now; retry once ready again.
    WouldBlock,
    /// The call failed for good with a terminal error.
    Fatal(ErrorKind),
}

/// The action the adapter must take after polling an operation once.
#[derive(Clone, Copy, Debug, PartialEq, Eq, Structural)]
pub enum PollStep {
    /// Readiness was absent, so no attempt was made: stay suspended.
    Pending,
    /// The attempt would block: clear the readiness flag, then suspend.
    /// Clearing happens before suspending, so a readiness event arriving in
    /// between looks fresh to the reactor and is never lost.
    ClearAndWait,
    /// The operation completed with this count.
    Complete(usize),
    /// The operation failed; the error is surfaced unchanged, exactly once.
    Failed(ErrorKind),
}

/// The step taken after an attempt was actually made (readiness was present).
pub open spec fn attempt_step(outcome: SysOutcome) -> PollStep {
    match outcome {
        SysOutcome::Transferred(n) => PollStep::Complete(n),
        SysOutcome::WouldBlock => PollStep::ClearAndWait,
        SysOutcome::Fatal(e) => PollStep::Failed(e),
    }
}

/// The step taken by one whole poll: without readiness no attempt is made
/// and `outcome` is meaningless; with readiness the attempt decides.
pub open spec fn poll_step_spec(ready: bool, outcome: SysOutcome) -> PollStep {
    if ready {
        attempt_step(outcome)
    } else {
        PollStep::Pending
    }
}

/// Classifies the outcome of a non-blocking attempt. A would-block outcome
/// never becomes a result: it always turns into clear-then-wait, and every
/// other outcome ends the operation on the spot.
pub fn classify_attempt(outcome: SysOutcome) -> (r: PollStep)
    ensures
        r == attempt_step(outcome),
        !(r is Pending),
        r is ClearAndWait <==> outcome is WouldBlock,
{
    match outcome {
        SysOutcome::Transferred(n) => PollStep::Complete(n),
        SysOutcome::WouldBlock => PollStep::ClearAndWait,
        SysOutcome::Fatal(e) => PollStep::Failed(e),
    }
}

/// One whole poll of a suspended operation: attempt only under readiness.
pub fn poll_once(ready: bool, outcome: SysOutcome) -> (r: PollStep)
    ensures
        r == poll_step_spec(ready, outcome),
{
    if ready {
        classify_attempt(outcome)
    } else {
        PollStep::Pending
    }
}

/// One poll of an in-flight operation, as the reactor saw it: whether the
/// descriptor was ready, and what the attempt (made only under readiness)
/// would have reported.
#[derive(Clone, Copy, Debug, PartialEq, Eq, Structural)]
pub struct PollEvent {
    /// The readiness flag at this poll.
    pub ready: bool,
    /// What the non-blocking attempt reports at this poll.
    pub outcome: SysOutcome,
}

/// How a whole sequence of polls left the operation.
#[derive(Clone, Copy, Debug, PartialEq, Eq, Structural)]
pub enum DriveResult {
    /// Completed with this count.
    Finished(usize),
    /// Failed with this terminal error.
    Aborted(ErrorKind),
    /// Still suspended: every poll so far was unready or would-block.
    StillWaiting,
}

/// A poll is productive when the descriptor was ready and the attempt gave a
/// definite answer, success or terminal failure.
pub open spec fn productive(e: PollEvent) -> bool {
    e.ready && !(e.outcome is WouldBlock)
}

/// No poll strictly before `i` was productive.
pub open spec fn no_progress_before(s: Seq<PollEvent>, i: int) -> bool {
    forall|j: int| 0 <= j < i ==> !(#[trigger] productive(s[j]))
}

/// The final result an outcome decides for the whole operation.
pub open spec fn drive_outcome_matches(r: DriveResult, outcome: SysOutcome) -> bool {
    match outcome {
        SysOutcome::Transferred(n) => r == DriveResult::Finished(n),
        SysOutcome::Fatal(e) => r == DriveResult::Aborted(e),
        SysOutcome::WouldBlock => r == DriveResult::StillWaiting,
    }
}

/// The retry loop over a trace of polls: the first productive poll decides
/// the operation; unready and would-block polls are absorbed.
pub open spec fn drive_spec(s: Seq<PollEvent>) -> DriveResult
    decreases s.len(),
{
    if s.len() == 0 {
        DriveResult::StillWaiting
    } else if productive(s[0]) {
        match s[0].outcome {
            SysOutcome::Transferred(n) => DriveResult::Finished(n),
            SysOutcome::Fatal(e) => DriveResult::Aborted(e),
            SysOutcome::WouldBlock => DriveResult::StillWaiting,
        }
    } else {
        drive_spec(s.drop_first())
    }
}

/// Runs the retry loop over a recorded trace of polls.
pub fn drive(events: &Vec<PollEvent>) -> (r: DriveResult)
    ensures
        r == drive_spec(events@),
{
    let n = events.len();
    let mut i: usize = 0;
    proof {
        assert(events@.skip(0) =~= events@);
    }
    while i < n
        invariant
            0 <= i <= n,
            n == events@.len(),
            drive_spec(events@) == drive_spec(events@.skip(i as int)),
        decreases n - i,
    {
        let e = events[i];
        proof {
            assert(events@.skip(i as int)[0] == events@[i as int]);
            assert(events@.skip(i as int).drop_first() =~= events@.skip(i as int + 1));
        }
        match poll_once(e.ready, e.outcome) {
            PollStep::Complete(count) => {
                return DriveResult::Finished(count);
            },
            PollStep::Failed(err) => {
                return DriveResult::Aborted(err);
            },
            PollStep::Pending => {},
            PollStep::ClearAndWait => {},
        }
        i += 1;
    }
    proof {
        assert(events@.skip(n as int) =~= Seq::<PollEvent>::empty());
    }
    DriveResult::StillWaiting
}

/// Liveness of the readiness bridge: however many unready or would-block
/// polls precede it, the first productive poll decides the operation — its
/// success count or terminal error becomes the result, and the operation is
/// certainly no longer waiting. A would-block can therefore never cause a
/// permanent stall once readiness returns with a definite outcome.
pub proof fn lemma_first_productive_poll_decides(s: Seq<PollEvent>, i: int)
    requires
        0 <= i < s.len(),
        no_progress_before(s, i),
        productive(s[i]),
    ensures
        drive_outcome_matches(drive_spec(s), s[i].outcome),
        !(drive_spec(s) is StillWaiting),
    decreases i,
{
    if i == 0 {
    } else {
        assert(!productive(s[0]));
        let t = s.drop_first();
        assert forall|j: int| 0 <= j < i - 1 implies !(#[trigger] productive(t[j])) by {
            assert(t[j] == s[j + 1]);
            assert(!productive(s[j + 1]));
        }
        assert(t[i - 1] == s[i]);
        lemma_first_productive_poll_decides(t, i - 1);
    }
}

/// The converse: a trace with no productive poll leaves the operation
/// suspended — the adapter never invents a result while the descriptor is
/// unready or the kernel keeps answering would-block.
pub proof fn lemma_unproductive_trace_still_waits(s: Seq<PollEvent>)
    requires
        no_progress_before(s, s.len() as int),
    ensures
        drive_spec(s) == DriveResult::StillWaiting,
    decreases s.len(),
{
    if s.len() == 0 {
    } else {
        assert(!productive(s[0]));
        let t = s.drop_first();
        assert forall|j: int| 0 <= j < t.len() implies !(#[trigger] productive(t[j])) by {
            assert(t[j] == s[j + 1]);
            assert(!productive(s[j + 1]));
        }
        lemma_unproductive_trace_still_waits(t);
    }
}

/// How `connect` proceeds after the initial non-blocking connect call.
#[derive(Clone, Copy, Debug, PartialEq, Eq, Structural)]
pub enum ConnectPlan {
    /// The kernel accepted the attempt: suspend until the descriptor reports
    /// writable-readiness, which signals connect completion.
    AwaitWritable,
    /// The kernel reported a definite error: fail with it now, without ever
    /// registering a wait. A connect to a non-existent path, which the
    /// kernel rejects outright as not-found, therefore fails immediately and
    /// can never hang.
    Fail(ErrorKind),
}

/// Decides, from the initial non-blocking connect result, whether to wait
/// for writability or to fail on the spot.
pub fn plan_connect(start: Result<(), ErrorKind>) -> (r: ConnectPlan)
    ensures
        start matches Err(e) ==> r == ConnectPlan::Fail(e),
        start is Ok ==> r == ConnectPlan::AwaitWritable,
        (r is Fail) <==> (start is Err),
{
    match start {
        Ok(()) => ConnectPlan::AwaitWritable,
        Err(e) => ConnectPlan::Fail(e),
    }
}

} // verus!
