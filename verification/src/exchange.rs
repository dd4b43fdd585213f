//! One exchange with Firecracker over the API socket, as a state machine:
//! take the lock file (when the agent holds one), clear the stream, send the
//! request, receive the reply, release the lock, decode. The caller performs
//! each step and reports how it went; the machine says what comes next.
use vstd::prelude::*;
use vstd::string::*;
use crate::error::{err_view, RtckError, RtckErrorKind};

verus! {

/// A step of an exchange.
#[derive(Clone, Copy, PartialEq, Eq, Structural, Debug)]
pub enum ExchangeStep {
    Lock,
    ClearStream,
    Send,
    Receive,
    Unlock,
    Decode,
    Finished,
}

/// What the caller does next: perform a step, or hand back the outcome
/// (on `Ok`, the decoded reply).
#[derive(Debug)]
pub enum ExchangeAction {
    Perform(ExchangeStep),
    Finish(Result<(), RtckError>),
}

/// Where an exchange stands. `held`: the lock is taken and no unlock has
/// been tried yet. `pending`: the error to report once the lock is
/// released.
#[derive(Debug)]
pub struct EventExchange {
    pub locking: bool,
    pub stage: ExchangeStep,
    pub held: bool,
    pub pending: Option<RtckError>,
}

/// Whether a step uses the socket stream.
pub open spec fn uses_stream(s: ExchangeStep) -> bool {
    s == ExchangeStep::ClearStream || s == ExchangeStep::Send || s == ExchangeStep::Receive
}

/// The step after one that succeeded.
pub open spec fn step_after(s: ExchangeStep, locking: bool) -> ExchangeStep {
    match s {
        ExchangeStep::Lock => ExchangeStep::ClearStream,
        ExchangeStep::ClearStream => ExchangeStep::Send,
        ExchangeStep::Send => ExchangeStep::Receive,
        ExchangeStep::Receive => if locking { ExchangeStep::Unlock } else { ExchangeStep::Decode },
        ExchangeStep::Unlock => ExchangeStep::Decode,
        ExchangeStep::Decode => ExchangeStep::Finished,
        ExchangeStep::Finished => ExchangeStep::Finished,
    }
}

/// The message of a reply that could not be decoded.
pub open spec fn decode_failure_text(m: Seq<char>) -> Seq<char> {
    "Fail to decode response: "@ + m
}

/// The first state of an exchange.
pub open spec fn exchange_start(locking: bool) -> EventExchange {
    EventExchange {
        locking,
        stage: if locking { ExchangeStep::Lock } else { ExchangeStep::ClearStream },
        held: false,
        pending: None,
    }
}

/// How a step's outcome moves an exchange from `s` to `t`, with action `a`.
/// A failed step of the stream, under the lock, first releases the lock and
/// then reports that failure; a failed unlock reports its own error.
pub open spec fn steps_to(s: EventExchange, outcome: Result<(), RtckError>, t: EventExchange, a: ExchangeAction) -> bool {
    match outcome {
        Ok(()) => match s.stage {
            ExchangeStep::Lock => t == (EventExchange { stage: ExchangeStep::ClearStream, held: true, ..s })
                && a == ExchangeAction::Perform(ExchangeStep::ClearStream),
            ExchangeStep::Unlock => match s.pending {
                Some(e) => t == (EventExchange { stage: ExchangeStep::Finished, held: false, pending: None, ..s })
                    && a == ExchangeAction::Finish(Err(e)),
                None => t == (EventExchange { stage: ExchangeStep::Decode, held: false, ..s })
                    && a == ExchangeAction::Perform(ExchangeStep::Decode),
            },
            ExchangeStep::Decode => t == (EventExchange { stage: ExchangeStep::Finished, ..s })
                && a == ExchangeAction::Finish(Ok(())),
            _ => t == (EventExchange { stage: step_after(s.stage, s.locking), ..s })
                && a == ExchangeAction::Perform(step_after(s.stage, s.locking)),
        },
        Err(e) => match s.stage {
            ExchangeStep::Lock => t == (EventExchange { stage: ExchangeStep::Finished, ..s })
                && a == ExchangeAction::Finish(Err(e)),
            ExchangeStep::Unlock => t == (EventExchange { stage: ExchangeStep::Finished, held: false, pending: None, ..s })
                && a == ExchangeAction::Finish(Err(e)),
            ExchangeStep::Decode => t == (EventExchange { stage: ExchangeStep::Finished, ..s })
                && (a matches ExchangeAction::Finish(Err(x))
                && err_view(x) == (RtckErrorKind::Agent, decode_failure_text(err_view(e).1))),
            _ => if s.locking {
                t == (EventExchange { stage: ExchangeStep::Unlock, pending: Some(e), ..s })
                    && a == ExchangeAction::Perform(ExchangeStep::Unlock)
            } else {
                t == (EventExchange { stage: ExchangeStep::Finished, ..s })
                    && a == ExchangeAction::Finish(Err(e))
            },
        },
    }
}

impl EventExchange {
    /// The lock is held exactly from a successful lock to the unlock; an
    /// agent without a lock file never locks; an error waits only for the
    /// unlock.
    pub open spec fn well_formed(self) -> bool {
        &&& self.held <==> (self.locking && (uses_stream(self.stage) || self.stage == ExchangeStep::Unlock))
        &&& !self.locking ==> self.stage != ExchangeStep::Lock && self.stage != ExchangeStep::Unlock
        &&& self.pending is Some ==> self.stage == ExchangeStep::Unlock
    }

    /// Starts an exchange: with a lock file, by taking the lock; without,
    /// by clearing the stream.
    pub fn start(locking: bool) -> (r: (EventExchange, ExchangeAction))
        ensures
            r.0 == exchange_start(locking),
            r.0.well_formed(),
            r.1 == ExchangeAction::Perform(r.0.stage),
    {
        let stage = if locking { ExchangeStep::Lock } else { ExchangeStep::ClearStream };
        (EventExchange { locking, stage, held: false, pending: None }, ExchangeAction::Perform(stage))
    }

    /// Moves the exchange on by the outcome of the step just performed. The
    /// stream is used only while the lock is held, the reply is decoded only
    /// once the lock is released, and no exchange finishes holding it.
    pub fn step(self, outcome: Result<(), RtckError>) -> (r: (EventExchange, ExchangeAction))
        requires
            self.well_formed(),
            self.stage != ExchangeStep::Finished,
        ensures
            steps_to(self, outcome, r.0, r.1),
            r.0.well_formed(),
            r.1 matches ExchangeAction::Perform(st) ==> st == r.0.stage,
            r.1 matches ExchangeAction::Perform(st) && uses_stream(st) ==> (r.0.locking ==> r.0.held),
            r.1 matches ExchangeAction::Perform(st) && st == ExchangeStep::Decode ==> !r.0.held,
            r.1 is Finish ==> !r.0.held && r.0.stage == ExchangeStep::Finished,
    {
        let EventExchange { locking, stage, held, pending } = self;
        match outcome {
            Ok(()) => match stage {
                ExchangeStep::Lock => (
                    EventExchange { locking, stage: ExchangeStep::ClearStream, held: true, pending },
                    ExchangeAction::Perform(ExchangeStep::ClearStream),
                ),
                ExchangeStep::ClearStream => (
                    EventExchange { locking, stage: ExchangeStep::Send, held, pending },
                    ExchangeAction::Perform(ExchangeStep::Send),
                ),
                ExchangeStep::Send => (
                    EventExchange { locking, stage: ExchangeStep::Receive, held, pending },
                    ExchangeAction::Perform(ExchangeStep::Receive),
                ),
                ExchangeStep::Receive => {
                    let next = if locking { ExchangeStep::Unlock } else { ExchangeStep::Decode };
                    (EventExchange { locking, stage: next, held, pending }, ExchangeAction::Perform(next))
                },
                ExchangeStep::Unlock => match pending {
                    Some(e) => (
                        EventExchange { locking, stage: ExchangeStep::Finished, held: false, pending: None },
                        ExchangeAction::Finish(Err(e)),
                    ),
                    None => (
                        EventExchange { locking, stage: ExchangeStep::Decode, held: false, pending: None },
                        ExchangeAction::Perform(ExchangeStep::Decode),
                    ),
                },
                ExchangeStep::Decode => (
                    EventExchange { locking, stage: ExchangeStep::Finished, held, pending },
                    ExchangeAction::Finish(Ok(())),
                ),
                ExchangeStep::Finished => (
                    EventExchange { locking, stage, held, pending },
                    ExchangeAction::Finish(Ok(())),
                ),
            },
            Err(e) => match stage {
                ExchangeStep::Lock => (
                    EventExchange { locking, stage: ExchangeStep::Finished, held, pending },
                    ExchangeAction::Finish(Err(e)),
                ),
                ExchangeStep::Unlock => (
                    EventExchange { locking, stage: ExchangeStep::Finished, held: false, pending: None },
                    ExchangeAction::Finish(Err(e)),
                ),
                ExchangeStep::Decode => {
                    let mut m = String::from_str("Fail to decode response: ");
                    m.append(e.message().as_str());
                    (
                        EventExchange { locking, stage: ExchangeStep::Finished, held, pending },
                        ExchangeAction::Finish(Err(RtckError::Agent(m))),
                    )
                },
                ExchangeStep::Finished => (
                    EventExchange { locking, stage, held, pending },
                    ExchangeAction::Finish(Err(e)),
                ),
                _ => if locking {
                    (
                        EventExchange { locking, stage: ExchangeStep::Unlock, held, pending: Some(e) },
                        ExchangeAction::Perform(ExchangeStep::Unlock),
                    )
                } else {
                    (
                        EventExchange { locking, stage: ExchangeStep::Finished, held, pending },
                        ExchangeAction::Finish(Err(e)),
                    )
                },
            },
        }
    }
}

/// With a lock file and every step succeeding, an exchange locks, clears
/// the stream, sends, receives, unlocks, decodes and finishes with the
/// reply, in that order.
pub proof fn lemma_locked_exchange_in_order(
    s1: EventExchange, a1: ExchangeAction, s2: EventExchange, a2: ExchangeAction,
    s3: EventExchange, a3: ExchangeAction, s4: EventExchange, a4: ExchangeAction,
    s5: EventExchange, a5: ExchangeAction, s6: EventExchange, a6: ExchangeAction,
)
    requires
        steps_to(exchange_start(true), Ok(()), s1, a1),
        steps_to(s1, Ok(()), s2, a2),
        steps_to(s2, Ok(()), s3, a3),
        steps_to(s3, Ok(()), s4, a4),
        steps_to(s4, Ok(()), s5, a5),
        steps_to(s5, Ok(()), s6, a6),
    ensures
        a1 == ExchangeAction::Perform(ExchangeStep::ClearStream),
        a2 == ExchangeAction::Perform(ExchangeStep::Send),
        a3 == ExchangeAction::Perform(ExchangeStep::Receive),
        a4 == ExchangeAction::Perform(ExchangeStep::Unlock),
        a5 == ExchangeAction::Perform(ExchangeStep::Decode),
        a6 == ExchangeAction::Finish(Ok(())),
        !s6.held,
{
}

/// With a lock file, a reply that cannot be received is reported only after
/// the lock is released, and it is that failure that is reported.
pub proof fn lemma_failed_receive_unlocks_first(
    e: RtckError,
    s1: EventExchange, a1: ExchangeAction, s2: EventExchange, a2: ExchangeAction,
    s3: EventExchange, a3: ExchangeAction, s4: EventExchange, a4: ExchangeAction,
    s5: EventExchange, a5: ExchangeAction,
)
    requires
        steps_to(exchange_start(true), Ok(()), s1, a1),
        steps_to(s1, Ok(()), s2, a2),
        steps_to(s2, Ok(()), s3, a3),
        steps_to(s3, Err(e), s4, a4),
        steps_to(s4, Ok(()), s5, a5),
    ensures
        a4 == ExchangeAction::Perform(ExchangeStep::Unlock),
        s4.held,
        a5 == ExchangeAction::Finish(Err(e)),
        !s5.held,
{
}

/// The order of the steps: every step of an exchange moves it to a later
/// one.
pub open spec fn stage_rank(s: ExchangeStep) -> int {
    match s {
        ExchangeStep::Lock => 0,
        ExchangeStep::ClearStream => 1,
        ExchangeStep::Send => 2,
        ExchangeStep::Receive => 3,
        ExchangeStep::Unlock => 4,
        ExchangeStep::Decode => 5,
        ExchangeStep::Finished => 6,
    }
}

/// One step keeps an exchange well formed, moves it to a later step,
/// performs the step it moves to, and finishes only without the lock.
pub proof fn lemma_step_moves_on(s: EventExchange, o: Result<(), RtckError>, t: EventExchange, a: ExchangeAction)
    requires
        s.well_formed(),
        s.stage != ExchangeStep::Finished,
        steps_to(s, o, t, a),
    ensures
        t.well_formed(),
        t.locking == s.locking,
        stage_rank(s.stage) < stage_rank(t.stage),
        a matches ExchangeAction::Perform(st) ==> st == t.stage,
        a is Finish <==> t.stage == ExchangeStep::Finished,
        a is Finish ==> !t.held,
        a == ExchangeAction::Finish(Ok(())) ==> s.stage == ExchangeStep::Decode && o is Ok,
{
}

/// Whether an action uses the socket stream.
pub open spec fn performs_stream(a: ExchangeAction) -> bool {
    match a {
        ExchangeAction::Perform(st) => uses_stream(st),
        ExchangeAction::Finish(_) => false,
    }
}

/// A run of an exchange: each outcome `os[i]` moves `ss[i]`, not yet
/// finished, to `ss[i + 1]` with action `acts[i]`.
pub open spec fn exchange_run(ss: Seq<EventExchange>, os: Seq<Result<(), RtckError>>, acts: Seq<ExchangeAction>) -> bool {
    &&& ss.len() == os.len() + 1
    &&& acts.len() == os.len()
    &&& forall|i: int| #![trigger acts[i]] 0 <= i < os.len() ==> steps_to(ss[i], os[i], ss[i + 1], acts[i])
        && ss[i].stage != ExchangeStep::Finished
}

proof fn lemma_run_prefix(
    locking: bool, ss: Seq<EventExchange>, os: Seq<Result<(), RtckError>>, acts: Seq<ExchangeAction>, k: int,
)
    requires
        exchange_run(ss, os, acts),
        ss[0] == exchange_start(locking),
        0 <= k < ss.len(),
    ensures
        forall|i: int| 0 <= i <= k ==> (#[trigger] ss[i]).well_formed() && ss[i].locking == locking,
        forall|i: int, j: int| 0 <= i < j <= k ==> stage_rank((#[trigger] ss[i]).stage) < stage_rank((#[trigger] ss[j]).stage),
    decreases k,
{
    if k > 0 {
        lemma_run_prefix(locking, ss, os, acts, k - 1);
        let a = acts[k - 1];
        assert(steps_to(ss[k - 1], os[k - 1], ss[k], a));
        lemma_step_moves_on(ss[k - 1], os[k - 1], ss[k], acts[k - 1]);
    }
}

/// A whole exchange, whatever each step's outcome: the request is sent at
/// most once; the stream is used only under the lock (when there is one);
/// only the last action finishes the exchange, and it finishes without the
/// lock on every path, successful or not; it finishes with the reply only
/// when decoding the received body succeeded.
pub proof fn lemma_exchange_run(
    locking: bool, ss: Seq<EventExchange>, os: Seq<Result<(), RtckError>>, acts: Seq<ExchangeAction>,
)
    requires
        exchange_run(ss, os, acts),
        ss[0] == exchange_start(locking),
    ensures
        forall|i: int, j: int| 0 <= i < j < acts.len() && acts[i] == ExchangeAction::Perform(ExchangeStep::Send)
            ==> acts[j] != ExchangeAction::Perform(ExchangeStep::Send),
        forall|i: int| 0 <= i < acts.len() && performs_stream(#[trigger] acts[i]) ==> (locking ==> ss[i + 1].held),
        forall|i: int| 0 <= i < acts.len() && (#[trigger] acts[i]) is Finish ==> !ss[i + 1].held && i == acts.len() - 1,
        forall|i: int| 0 <= i < acts.len() && (#[trigger] acts[i]) == ExchangeAction::Finish(Ok(()))
            ==> ss[i].stage == ExchangeStep::Decode && os[i] is Ok,
{
    lemma_run_prefix(locking, ss, os, acts, ss.len() - 1);
    assert forall|i: int| 0 <= i < acts.len() implies {
        let a = #[trigger] acts[i];
        &&& (a matches ExchangeAction::Perform(st) ==> st == ss[i + 1].stage)
        &&& (a is Finish <==> ss[i + 1].stage == ExchangeStep::Finished)
        &&& (a is Finish ==> !ss[i + 1].held)
        &&& (a == ExchangeAction::Finish(Ok(())) ==> ss[i].stage == ExchangeStep::Decode && os[i] is Ok)
        &&& ss[i + 1].well_formed()
    } by {
        assert(steps_to(ss[i], os[i], ss[i + 1], acts[i]));
        assert(ss[i].well_formed());
        lemma_step_moves_on(ss[i], os[i], ss[i + 1], acts[i]);
    }
    assert forall|i: int, j: int| 0 <= i < j < acts.len() && acts[i] == ExchangeAction::Perform(ExchangeStep::Send)
        implies acts[j] != ExchangeAction::Perform(ExchangeStep::Send) by {
        assert(stage_rank(ss[i + 1].stage) < stage_rank(ss[j + 1].stage));
    }
    assert forall|i: int| 0 <= i < acts.len() && (#[trigger] acts[i]) is Finish implies i == acts.len() - 1 by {
        if i < acts.len() - 1 {
            let b = acts[i + 1];
            assert(ss[i + 1].stage != ExchangeStep::Finished);
        }
    }
}

} // verus!
