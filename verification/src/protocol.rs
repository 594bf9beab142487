//! The two role state machines of the ping-pong protocol.
//!
//! Signal delivery and suspension are operating-system work and happen
//! outside this crate; the machines here make every decision. The caller
//! runs the loop: it asks the machine which signal kind to await, performs
//! the wait or the (fire-and-forget) notify, and hands the machine each
//! arrival together with a monotonic clock reading in nanoseconds. A
//! machine's state changes only through these calls, so a peer that never
//! answers leaves the machine exactly where it was.

use crate::stats::{step_model, LatencyAccumulator, Summary};
use vstd::pervasive::unreached;
use vstd::prelude::*;

verus! {

/// The two logical notification categories of the protocol, realized
/// outside this crate as two distinct signal numbers.
#[derive(Clone, Copy, Debug, PartialEq, Eq, Structural)]
pub enum SignalKind {
    /// Flows responder to coordinator: the initial handshake and every
    /// echo reuse this one kind, told apart by protocol position alone.
    Handshake,
    /// Flows coordinator to responder: every "go" ping.
    Ping,
}

/// The coordinator's protocol position.
#[derive(Clone, Copy, Debug, PartialEq, Eq, Structural)]
pub enum CoordState {
    /// Blocked on the initial handshake from the responder.
    AwaitingHandshake,
    /// About to stamp the round start and send a ping.
    Pinging,
    /// Ping sent; blocked on the responder's echo.
    AwaitingEcho,
    /// All rounds recorded; the summary is owed.
    Finalizing,
    /// Summary produced; terminal.
    Done,
}

/// One completed round as the coordinator sees it, abstracted to its
/// protocol position and the rounds still to run: from `Pinging` a ping
/// goes out and the echo comes back, which either returns the machine to
/// `Pinging` or, on the last round, moves it to `Finalizing`.
pub open spec fn coord_round_step(state: CoordState, remaining: int) -> (CoordState, int) {
    if state is Pinging && remaining > 1 {
        (CoordState::Pinging, remaining - 1)
    } else if state is Pinging && remaining == 1 {
        (CoordState::Finalizing, 0)
    } else {
        (state, remaining)
    }
}

/// The coordinator's position after `k` completed rounds of a run
/// configured for `round_count` rounds, counted from the handshake.
pub open spec fn coord_after_rounds(round_count: int, k: int) -> (CoordState, int)
    decreases k,
{
    if k <= 0 {
        (CoordState::Pinging, round_count)
    } else {
        coord_round_step(
            coord_after_rounds(round_count, k - 1).0,
            coord_after_rounds(round_count, k - 1).1,
        )
    }
}

/// With `round_count` rounds configured, the coordinator's loop neither
/// completes early nor overruns: after every prefix of fewer than
/// `round_count` completed rounds it is back at `Pinging` with exactly the
/// unfinished rounds remaining, and after exactly `round_count` rounds it
/// is at `Finalizing` with none — so, the recorded count being the rounds
/// no longer remaining, it finishes with exactly `round_count` recorded.
pub proof fn lemma_coordinator_completes_exactly(round_count: int, k: int)
    requires
        1 <= round_count,
        0 <= k <= round_count,
    ensures
        k < round_count ==> coord_after_rounds(round_count, k).0 is Pinging
            && coord_after_rounds(round_count, k).1 == round_count - k,
        k == round_count ==> coord_after_rounds(round_count, k).0 is Finalizing
            && coord_after_rounds(round_count, k).1 == 0,
    decreases k,
{
    if k > 0 {
        lemma_coordinator_completes_exactly(round_count, k - 1);
    }
}

/// The coordinator role: waits for the handshake, then times
/// `round_count` ping/echo rounds and owes one summary at the end.
#[derive(Clone, Copy, Debug)]
pub struct Coordinator {
    /// Configured number of rounds; at least one.
    pub round_count: usize,
    /// Rounds not yet recorded.
    pub remaining: usize,
    /// Protocol position.
    pub state: CoordState,
    /// The accumulator, created at the handshake; `None` before it.
    pub bench: Option<LatencyAccumulator>,
}

impl Coordinator {
    /// Rounds recorded so far.
    pub open spec fn recorded(self) -> int {
        self.round_count - self.remaining
    }

    /// Every reachable coordinator satisfies this: the accumulator exists
    /// from the handshake on and has absorbed exactly the recorded
    /// rounds, and the position bounds the remaining count.
    pub open spec fn well_formed(self) -> bool {
        &&& self.round_count >= 1
        &&& self.remaining <= self.round_count
        &&& self.state is AwaitingHandshake ==> self.bench is None && self.remaining
            == self.round_count
        &&& !(self.state is AwaitingHandshake) ==> (self.bench matches Some(b) && b.well_formed()
            && b.count as int == self.recorded())
        &&& self.state is Pinging ==> self.remaining >= 1
        &&& self.state is AwaitingEcho ==> self.remaining >= 1
        &&& self.state is Finalizing ==> self.remaining == 0
        &&& self.state is Done ==> self.remaining == 0
    }

    /// The signal kind this machine is waiting for, if it is waiting:
    /// both the handshake and every echo arrive as `Handshake`.
    pub open spec fn spec_awaited_kind(self) -> Option<SignalKind> {
        match self.state {
            CoordState::AwaitingHandshake => Some(SignalKind::Handshake),
            CoordState::AwaitingEcho => Some(SignalKind::Handshake),
            _ => None,
        }
    }

    /// Builds a coordinator for a validated round count.
    pub fn new(round_count: usize) -> (r: Coordinator)
        requires
            round_count >= 1,
        ensures
            r == (Coordinator {
                round_count,
                remaining: round_count,
                state: CoordState::AwaitingHandshake,
                bench: None,
            }),
            r.well_formed(),
    {
        Coordinator {
            round_count,
            remaining: round_count,
            state: CoordState::AwaitingHandshake,
            bench: None,
        }
    }

    /// The current protocol position.
    pub fn state(&self) -> (s: CoordState)
        ensures
            s == self.state,
    {
        self.state
    }

    /// Whether the run is over.
    pub fn is_done(&self) -> (r: bool)
        ensures
            r == (self.state is Done),
    {
        matches!(self.state, CoordState::Done)
    }

    /// The signal kind to await next, or `None` if none is awaited.
    pub fn awaited_kind(&self) -> (k: Option<SignalKind>)
        ensures
            k == self.spec_awaited_kind(),
    {
        match self.state {
            CoordState::AwaitingHandshake => Some(SignalKind::Handshake),
            CoordState::AwaitingEcho => Some(SignalKind::Handshake),
            _ => None,
        }
    }

    /// The handshake arrived at instant `now_ns`: create the accumulator
    /// (the first round begins now) and move to `Pinging`.
    pub fn on_handshake(&mut self, now_ns: u64)
        requires
            old(self).well_formed(),
            old(self).state is AwaitingHandshake,
        ensures
            *final(self) == (Coordinator {
                state: CoordState::Pinging,
                bench: Some(LatencyAccumulator::spec_initial(now_ns)),
                ..*old(self)
            }),
            final(self).well_formed(),
    {
        self.bench = Some(LatencyAccumulator::new(now_ns));
        self.state = CoordState::Pinging;
    }

    /// Stamp the round start at instant `now_ns` and hand the caller the
    /// kind to notify the peer with. The notify is fire-and-forget: the
    /// machine moves to `AwaitingEcho` whether or not the delivery
    /// succeeds, so the caller logs a failure and waits anyway.
    pub fn send_ping(&mut self, now_ns: u64) -> (kind: SignalKind)
        requires
            old(self).well_formed(),
            old(self).state is Pinging,
        ensures
            kind == SignalKind::Ping,
            final(self).state is AwaitingEcho,
            final(self).round_count == old(self).round_count,
            final(self).remaining == old(self).remaining,
            final(self).bench == Some(
                (LatencyAccumulator { round_start_ns: now_ns, ..old(self).bench->0 }),
            ),
            final(self).well_formed(),
    {
        match &mut self.bench {
            Some(b) => b.begin_round(now_ns),
            None => (),
        }
        self.state = CoordState::AwaitingEcho;
        SignalKind::Ping
    }

    /// The echo arrived at instant `now_ns`: fold the just-completed
    /// round's duration into the accumulator and either start the next
    /// round or, after the last one, move to `Finalizing`. Returns whether
    /// rounds remain. The preconditions beyond protocol position only ask
    /// that the clock did not run backwards and that the running sums
    /// stay representable.
    pub fn on_echo(&mut self, now_ns: u64) -> (more: bool)
        requires
            old(self).well_formed(),
            old(self).state is AwaitingEcho,
            now_ns >= old(self).bench->0.round_start_ns,
            old(self).bench->0.sum_ns + (now_ns - old(self).bench->0.round_start_ns)
                <= u128::MAX as int,
            old(self).bench->0.squared_sum_ns2 + (now_ns - old(self).bench->0.round_start_ns) * (
            now_ns - old(self).bench->0.round_start_ns) <= u128::MAX as int,
        ensures
            final(self).bench matches Some(b) && b.model() == step_model(
                old(self).bench->0.model(),
                now_ns - old(self).bench->0.round_start_ns,
            ) && b.total_start_ns == old(self).bench->0.total_start_ns,
            final(self).round_count == old(self).round_count,
            final(self).remaining == old(self).remaining - 1,
            more == (old(self).remaining > 1),
            final(self).state == (if old(self).remaining > 1 {
                CoordState::Pinging
            } else {
                CoordState::Finalizing
            }),
            (final(self).state, final(self).remaining as int) == coord_round_step(
                CoordState::Pinging,
                old(self).remaining as int,
            ),
            final(self).well_formed(),
    {
        match &mut self.bench {
            Some(b) => {
                let duration: u64 = now_ns - b.round_start_ns;
                b.update(duration);
            },
            None => (),
        }
        self.remaining = self.remaining - 1;
        if self.remaining > 0 {
            self.state = CoordState::Pinging;
            true
        } else {
            self.state = CoordState::Finalizing;
            false
        }
    }

    /// All rounds are recorded: produce the summary at instant `now_ns`
    /// and finish. The summary covers exactly `round_count` rounds.
    pub fn finalize(&mut self, now_ns: u64, payload_size: usize) -> (s: Summary)
        requires
            old(self).well_formed(),
            old(self).state is Finalizing,
            now_ns >= old(self).bench->0.total_start_ns,
            (old(self).round_count as int) * (payload_size as int) * 1_000_000_000
                <= u128::MAX as int,
        ensures
            s == old(self).bench->0.spec_summary(now_ns, payload_size),
            s.count == old(self).round_count,
            *final(self) == (Coordinator { state: CoordState::Done, ..*old(self) }),
            final(self).well_formed(),
    {
        let s = match &self.bench {
            Some(b) => b.summarize(now_ns, payload_size),
            None => unreached(),
        };
        self.state = CoordState::Done;
        s
    }
}

/// The responder's protocol position.
#[derive(Clone, Copy, Debug, PartialEq, Eq, Structural)]
pub enum RespState {
    /// About to send the one unconditional handshake.
    Start,
    /// Blocked on the coordinator's ping.
    AwaitingPing,
    /// Ping received; the echo is owed.
    Echoing,
    /// All echoes sent; terminal.
    Done,
}

/// One completed round as the responder sees it: from `AwaitingPing` a
/// ping arrives and the echo goes out, which either returns the machine
/// to `AwaitingPing` or, on the last round, finishes it.
pub open spec fn resp_round_step(state: RespState, remaining: int) -> (RespState, int) {
    if state is AwaitingPing && remaining > 1 {
        (RespState::AwaitingPing, remaining - 1)
    } else if state is AwaitingPing && remaining == 1 {
        (RespState::Done, 0)
    } else {
        (state, remaining)
    }
}

/// The responder's position after `k` completed rounds of a run
/// configured for `round_count` rounds, counted from the handshake.
pub open spec fn resp_after_rounds(round_count: int, k: int) -> (RespState, int)
    decreases k,
{
    if k <= 0 {
        (RespState::AwaitingPing, round_count)
    } else {
        resp_round_step(
            resp_after_rounds(round_count, k - 1).0,
            resp_after_rounds(round_count, k - 1).1,
        )
    }
}

/// With `round_count` rounds configured, the responder's loop neither
/// completes early nor overruns: after every prefix of fewer than
/// `round_count` completed rounds it is back at `AwaitingPing` with
/// exactly the unfinished rounds remaining, and after exactly
/// `round_count` rounds it is done — so, the echoes sent being the rounds
/// no longer remaining, it finishes with exactly `round_count` echoes.
pub proof fn lemma_responder_echoes_exactly(round_count: int, k: int)
    requires
        1 <= round_count,
        0 <= k <= round_count,
    ensures
        k < round_count ==> resp_after_rounds(round_count, k).0 is AwaitingPing
            && resp_after_rounds(round_count, k).1 == round_count - k,
        k == round_count ==> resp_after_rounds(round_count, k).0 is Done && resp_after_rounds(
            round_count,
            k,
        ).1 == 0,
    decreases k,
{
    if k > 0 {
        lemma_responder_echoes_exactly(round_count, k - 1);
    }
}

/// The responder role: sends the handshake, then echoes every ping,
/// `round_count` times. It never constructs an accumulator and emits no
/// summary.
#[derive(Clone, Copy, Debug, PartialEq, Eq, Structural)]
pub struct Responder {
    /// Configured number of rounds; at least one.
    pub round_count: usize,
    /// Echoes not yet sent.
    pub remaining: usize,
    /// Echoes sent so far.
    pub echoes_sent: usize,
    /// Protocol position.
    pub state: RespState,
}

impl Responder {
    /// Every reachable responder satisfies this: the echoes sent and the
    /// echoes remaining always account for the whole configured count,
    /// and the position bounds the remaining count.
    pub open spec fn well_formed(self) -> bool {
        &&& self.round_count >= 1
        &&& self.remaining <= self.round_count
        &&& self.echoes_sent as int == self.round_count as int - self.remaining as int
        &&& self.state is Start ==> self.remaining == self.round_count
        &&& self.state is AwaitingPing ==> self.remaining >= 1
        &&& self.state is Echoing ==> self.remaining >= 1
        &&& self.state is Done ==> self.remaining == 0
    }

    /// The signal kind this machine is waiting for, if it is waiting.
    pub open spec fn spec_awaited_kind(self) -> Option<SignalKind> {
        match self.state {
            RespState::AwaitingPing => Some(SignalKind::Ping),
            _ => None,
        }
    }

    /// Builds a responder for a validated round count.
    pub fn new(round_count: usize) -> (r: Responder)
        requires
            round_count >= 1,
        ensures
            r == (Responder {
                round_count,
                remaining: round_count,
                echoes_sent: 0,
                state: RespState::Start,
            }),
            r.well_formed(),
    {
        Responder { round_count, remaining: round_count, echoes_sent: 0, state: RespState::Start }
    }

    /// The current protocol position.
    pub fn state(&self) -> (s: RespState)
        ensures
            s == self.state,
    {
        self.state
    }

    /// Whether all echoes have been sent.
    pub fn is_done(&self) -> (r: bool)
        ensures
            r == (self.state is Done),
    {
        matches!(self.state, RespState::Done)
    }

    /// The signal kind to await next, or `None` if none is awaited.
    pub fn awaited_kind(&self) -> (k: Option<SignalKind>)
        ensures
            k == self.spec_awaited_kind(),
    {
        match self.state {
            RespState::AwaitingPing => Some(SignalKind::Ping),
            _ => None,
        }
    }

    /// Hand the caller the one unconditional handshake to send, and move
    /// to `AwaitingPing`. Fire-and-forget: a delivery failure is the
    /// caller's to log, the machine waits for the first ping regardless.
    pub fn send_handshake(&mut self) -> (kind: SignalKind)
        requires
            old(self).well_formed(),
            old(self).state is Start,
        ensures
            kind == SignalKind::Handshake,
            *final(self) == (Responder { state: RespState::AwaitingPing, ..*old(self) }),
            final(self).well_formed(),
    {
        self.state = RespState::AwaitingPing;
        SignalKind::Handshake
    }

    /// A ping arrived: the echo is now owed.
    pub fn on_ping(&mut self)
        requires
            old(self).well_formed(),
            old(self).state is AwaitingPing,
        ensures
            *final(self) == (Responder { state: RespState::Echoing, ..*old(self) }),
            final(self).well_formed(),
    {
        self.state = RespState::Echoing;
    }

    /// Hand the caller the echo to send (fire-and-forget, like the
    /// handshake), count it, and either await the next ping or finish.
    /// Returns the kind to send and whether rounds remain.
    pub fn send_echo(&mut self) -> (r: (SignalKind, bool))
        requires
            old(self).well_formed(),
            old(self).state is Echoing,
        ensures
            r.0 == SignalKind::Handshake,
            r.1 == (old(self).remaining > 1),
            final(self).round_count == old(self).round_count,
            final(self).remaining == old(self).remaining - 1,
            final(self).echoes_sent == old(self).echoes_sent + 1,
            final(self).state == (if old(self).remaining > 1 {
                RespState::AwaitingPing
            } else {
                RespState::Done
            }),
            (final(self).state, final(self).remaining as int) == resp_round_step(
                RespState::AwaitingPing,
                old(self).remaining as int,
            ),
            final(self).well_formed(),
    {
        self.remaining = self.remaining - 1;
        self.echoes_sent = self.echoes_sent + 1;
        if self.remaining > 0 {
            self.state = RespState::AwaitingPing;
            (SignalKind::Handshake, true)
        } else {
            self.state = RespState::Done;
            (SignalKind::Handshake, false)
        }
    }
}

} // verus!
