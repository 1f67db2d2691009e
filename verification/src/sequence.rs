//! The batch sequence runner: drives an ordered list of telegrams through
//! one exchange each, with inter-message pacing. The runner only decides;
//! the caller performs the writes, waits and delays it asks for.

use vstd::prelude::*;

use crate::telegram::{spec_encode, Telegram, TelegramView};

verus! {

/// The fixed per-exchange wait for a response, in milliseconds.
pub const EXCHANGE_TIMEOUT_MS: u64 = 1500;

/// What one exchange produced: the first inbound notification in time, the
/// end of the notification stream, or nothing within the timeout.
pub enum ExchangeOutcome {
    Received(Vec<u8>),
    StreamEnded,
    TimedOut,
}

/// The mathematical value of an exchange outcome.
pub enum ExchangeOutcomeView {
    Received(Seq<u8>),
    StreamEnded,
    TimedOut,
}

impl View for ExchangeOutcome {
    type V = ExchangeOutcomeView;

    open spec fn view(&self) -> ExchangeOutcomeView {
        match self {
            ExchangeOutcome::Received(bytes) => ExchangeOutcomeView::Received(bytes@),
            ExchangeOutcome::StreamEnded => ExchangeOutcomeView::StreamEnded,
            ExchangeOutcome::TimedOut => ExchangeOutcomeView::TimedOut,
        }
    }
}

/// An ordered, finite list of telegrams plus a fixed inter-message delay in
/// milliseconds; consumed once by the sequence runner.
pub struct EventSequence {
    pub sequence: Vec<Telegram>,
    pub delay: u64,
}

impl EventSequence {
    /// Every telegram of the sequence can be framed.
    pub open spec fn wf(self) -> bool {
        forall|i: int| 0 <= i < self.sequence@.len() ==> (#[trigger] self.sequence@[i])@.wf()
    }
}

/// One send the runner asks its caller to perform: wait `delay_before_ms`,
/// then write `frame` and run one exchange.
pub struct RunnerCommand {
    pub delay_before_ms: u64,
    pub frame: Vec<u8>,
}

/// Drives an `EventSequence`: one command per telegram, in order. The cursor
/// advances on every step; no exchange outcome is consulted, so a timeout or
/// error on one message never withholds the next.
pub struct SequenceRunner {
    seq: EventSequence,
    index: usize,
}

impl SequenceRunner {
    /// The telegrams left to the whole run, in order.
    pub closed spec fn telegrams(self) -> Seq<TelegramView> {
        self.seq.sequence@.map(|i: int, t: Telegram| t@)
    }

    /// The configured inter-message delay in milliseconds.
    pub closed spec fn delay(self) -> u64 {
        self.seq.delay
    }

    /// How many telegrams have been issued so far.
    pub closed spec fn position(self) -> int {
        self.index as int
    }

    pub closed spec fn wf(self) -> bool {
        self.seq.wf() && self.index <= self.seq.sequence@.len()
    }

    pub fn new(seq: EventSequence) -> (r: Self)
        requires
            seq.wf(),
        ensures
            r.wf(),
            r.telegrams() == seq.sequence@.map(|i: int, t: Telegram| t@),
            r.delay() == seq.delay,
            r.position() == 0,
    {
        SequenceRunner { seq, index: 0 }
    }

    /// The next send, or `None` once the sequence is exhausted. The command's
    /// frame is the encoding of the telegram at the cursor, and the delay is
    /// zero for the first message and the configured delay for every later
    /// one. Nothing about any earlier exchange enters the decision.
    pub fn step(&mut self) -> (r: Option<RunnerCommand>)
        requires
            old(self).wf(),
        ensures
            final(self).wf(),
            final(self).telegrams() == old(self).telegrams(),
            final(self).delay() == old(self).delay(),
            old(self).position() < old(self).telegrams().len() ==> {
                &&& r matches Some(cmd) && cmd.frame@ == spec_encode(
                    old(self).telegrams()[old(self).position()],
                )
                &&& r matches Some(cmd) && cmd.delay_before_ms == (
                    if old(self).position() == 0 {
                        0
                    } else {
                        old(self).delay()
                    }
                )
                &&& final(self).position() == old(self).position() + 1
            },
            old(self).position() >= old(self).telegrams().len() ==> r is None
                && final(self).position() == old(self).position(),
    {
        if self.index < self.seq.sequence.len() {
            let telegram = &self.seq.sequence[self.index];
            let frame = match telegram.to_bytes() {
                Ok(v) => v,
                Err(_) => vstd::pervasive::unreached(),
            };
            let delay_before_ms = if self.index == 0 {
                0
            } else {
                self.seq.delay
            };
            self.index += 1;
            Some(RunnerCommand { delay_before_ms, frame })
        } else {
            None
        }
    }
}

/// The requests of a whole run over `ts`, given the per-message exchange
/// outcomes: the runner model consumes one outcome per message but emits the
/// next telegram's encoding in every case.
pub open spec fn spec_runner_requests(
    ts: Seq<TelegramView>,
    outcomes: Seq<ExchangeOutcomeView>,
) -> Seq<Seq<u8>>
    decreases ts.len(),
{
    if ts.len() == 0 {
        seq![]
    } else {
        seq![spec_encode(ts[0])] + spec_runner_requests(ts.drop_first(), outcomes.drop_first())
    }
}

/// Sequence-runner law: a run over `n` telegrams issues exactly `n` requests,
/// the i-th being the encoding of the i-th telegram, and two runs over the
/// same telegrams issue the same requests whatever their exchanges produced —
/// a timeout on one message never withholds a later one.
pub proof fn lemma_runner_outcome_independent(
    ts: Seq<TelegramView>,
    a: Seq<ExchangeOutcomeView>,
    b: Seq<ExchangeOutcomeView>,
)
    ensures
        spec_runner_requests(ts, a).len() == ts.len(),
        forall|i: int|
            0 <= i < ts.len() ==> #[trigger] spec_runner_requests(ts, a)[i] == spec_encode(ts[i]),
        spec_runner_requests(ts, a) == spec_runner_requests(ts, b),
    decreases ts.len(),
{
    if ts.len() > 0 {
        lemma_runner_outcome_independent(ts.drop_first(), a.drop_first(), b.drop_first());
        assert(spec_runner_requests(ts, a) =~= spec_runner_requests(ts, b));
        assert forall|i: int| 0 <= i < ts.len() implies #[trigger] spec_runner_requests(ts, a)[i]
            == spec_encode(ts[i]) by {
            if i > 0 {
                assert(spec_runner_requests(ts, a)[i] == spec_runner_requests(
                    ts.drop_first(),
                    a.drop_first(),
                )[i - 1]);
                assert(ts.drop_first()[i - 1] == ts[i]);
            }
        }
    }
}

} // verus!
