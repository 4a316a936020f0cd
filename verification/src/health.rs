//! Bounded-retry health probing, as a step machine. The caller performs
//! one request per attempt against the backend's health endpoint and
//! reports what it observed; the machine decides whether the probe has
//! succeeded, must retry after the configured delay, or is exhausted.
//! Attempts are strictly sequential: each observation is handed in only
//! after the previous attempt's full round trip.

use vstd::prelude::*;
use vstd::string::StringExecFns;

use crate::text::dec_digits;
use crate::text::u64_to_dec;

verus! {

/// What one probe attempt observed: the endpoint answered with a
/// success status and a body, or it did not (error status or transport
/// failure — both are retried alike).
pub enum ProbeOutcome {
    Up { body: String },
    Down,
}

/// Mathematical image of a `ProbeOutcome`.
pub enum ProbeOutcomeView {
    Up { body: Seq<char> },
    Down,
}

impl View for ProbeOutcome {
    type V = ProbeOutcomeView;

    open spec fn view(&self) -> ProbeOutcomeView {
        match self {
            ProbeOutcome::Up { body } => ProbeOutcomeView::Up { body: body@ },
            ProbeOutcome::Down => ProbeOutcomeView::Down,
        }
    }
}

/// The body carried by a successful observation (empty for `Down`).
pub open spec fn outcome_body(o: ProbeOutcomeView) -> Seq<char> {
    match o {
        ProbeOutcomeView::Up { body } => body,
        ProbeOutcomeView::Down => Seq::empty(),
    }
}

/// What the driving loop must do after an observation: stop with the
/// healthy body, sleep `delay_ms` and attempt again, or give up with
/// the exhaustion message.
pub enum ProbeAction {
    Ready { body: String },
    Retry { delay_ms: u64 },
    Exhausted { message: String },
}

/// Mathematical image of a `ProbeAction`.
pub enum ProbeActionView {
    Ready { body: Seq<char> },
    Retry { delay_ms: nat },
    Exhausted { message: Seq<char> },
}

impl View for ProbeAction {
    type V = ProbeActionView;

    open spec fn view(&self) -> ProbeActionView {
        match self {
            ProbeAction::Ready { body } => ProbeActionView::Ready { body: body@ },
            ProbeAction::Retry { delay_ms } => ProbeActionView::Retry { delay_ms: *delay_ms as nat },
            ProbeAction::Exhausted { message } => ProbeActionView::Exhausted { message: message@ },
        }
    }
}

/// The message reported when all `retries` attempts were used without a
/// single success.
pub open spec fn exhausted_chars(retries: nat) -> Seq<char> {
    "Backend did not become healthy after "@ + dec_digits(retries) + " attempts"@
}

/// Builds the exhaustion message naming the number of attempts made.
pub fn exhausted_message(retries: u32) -> (s: String)
    ensures
        s@ == exhausted_chars(retries as nat),
{
    let head = "Backend did not become healthy after ".to_owned();
    head.concat(u64_to_dec(retries as u64).as_str()).concat(" attempts")
}

/// Mathematical state of a prober: how many attempts it was given, the
/// inter-attempt delay, how many attempts it has consumed, and whether
/// its answer is final — either delivered by a step, or exhaustion
/// from the start for a zero budget.
pub struct ProberModel {
    pub retries: nat,
    pub delay_ms: nat,
    pub attempts: nat,
    pub done: bool,
}

/// A prober that has not yet delivered a final answer and may consume
/// another attempt.
pub open spec fn prober_running(p: ProberModel) -> bool {
    &&& !p.done
    &&& p.attempts < p.retries
}

/// One probe step: a success ends the probe with the observed body; a
/// failure either schedules a retry after `delay_ms` (when attempts
/// remain) or exhausts the probe with the message naming `retries`.
pub open spec fn prober_step(p: ProberModel, o: ProbeOutcomeView) -> (ProberModel, ProbeActionView) {
    let stepped = ProberModel { attempts: p.attempts + 1, ..p };
    match o {
        ProbeOutcomeView::Up { body } => (
            ProberModel { done: true, ..stepped },
            ProbeActionView::Ready { body },
        ),
        ProbeOutcomeView::Down => if p.attempts + 1 < p.retries {
            (stepped, ProbeActionView::Retry { delay_ms: p.delay_ms })
        } else {
            (
                ProberModel { done: true, ..stepped },
                ProbeActionView::Exhausted { message: exhausted_chars(p.retries) },
            )
        },
    }
}

/// Health prober for one launch: configured with a retry budget and an
/// inter-attempt delay, fed one observation per attempt.
pub struct Prober {
    retries: u32,
    delay_ms: u64,
    attempts: u32,
    done: bool,
}

impl View for Prober {
    type V = ProberModel;

    closed spec fn view(&self) -> ProberModel {
        ProberModel {
            retries: self.retries as nat,
            delay_ms: self.delay_ms as nat,
            attempts: self.attempts as nat,
            done: self.done,
        }
    }
}

impl Prober {
    /// A fresh prober with `retries` attempts and `delay_ms` between
    /// attempts. A zero budget is admitted: such a prober is already
    /// done — no attempt may be made and no delay is taken — and the
    /// probe fails with the exhaustion message naming 0, which the
    /// driving loop answers with `exhausted_message(retries)`.
    pub fn new(retries: u32, delay_ms: u64) -> (p: Prober)
        ensures
            p@ == (ProberModel {
                retries: retries as nat,
                delay_ms: delay_ms as nat,
                attempts: 0,
                done: retries == 0,
            }),
    {
        Prober { retries, delay_ms, attempts: 0, done: retries == 0 }
    }

    /// Consumes one attempt's observation and decides what the driving
    /// loop does next, exactly as `prober_step` says.
    pub fn observe(&mut self, outcome: ProbeOutcome) -> (action: ProbeAction)
        requires
            prober_running(old(self)@),
        ensures
            (final(self)@, action@) == prober_step(old(self)@, outcome@),
    {
        self.attempts = self.attempts + 1;
        match outcome {
            ProbeOutcome::Up { body } => {
                self.done = true;
                ProbeAction::Ready { body }
            },
            ProbeOutcome::Down => {
                if self.attempts < self.retries {
                    ProbeAction::Retry { delay_ms: self.delay_ms }
                } else {
                    self.done = true;
                    ProbeAction::Exhausted { message: exhausted_message(self.retries) }
                }
            },
        }
    }

    /// Whether the prober has delivered a final answer.
    pub fn is_done(&self) -> (b: bool)
        ensures
            b == self@.done,
    {
        self.done
    }
}

/// The state and the actions produced by feeding `outcomes` to `p` one
/// attempt at a time.
pub open spec fn prober_run(p: ProberModel, outcomes: Seq<ProbeOutcomeView>) -> (
    ProberModel,
    Seq<ProbeActionView>,
)
    decreases outcomes.len(),
{
    if outcomes.len() == 0 {
        (p, Seq::empty())
    } else {
        let first = prober_step(p, outcomes[0]);
        let rest = prober_run(first.0, outcomes.drop_first());
        (rest.0, seq![first.1] + rest.1)
    }
}

proof fn lemma_probe_all_down_general(p: ProberModel, outcomes: Seq<ProbeOutcomeView>)
    requires
        !p.done,
        outcomes.len() >= 1,
        p.attempts + outcomes.len() == p.retries,
        forall|i: int| 0 <= i < outcomes.len() ==> outcomes[i] is Down,
    ensures
        prober_run(p, outcomes).0.attempts == p.retries,
        prober_run(p, outcomes).0.done,
        prober_run(p, outcomes).1.len() == outcomes.len(),
        prober_run(p, outcomes).1.last() == (ProbeActionView::Exhausted {
            message: exhausted_chars(p.retries),
        }),
        forall|i: int|
            0 <= i < outcomes.len() - 1 ==> prober_run(p, outcomes).1[i] == (ProbeActionView::Retry {
                delay_ms: p.delay_ms,
            }),
    decreases outcomes.len(),
{
    let step = prober_step(p, outcomes[0]);
    if outcomes.len() == 1 {
        assert(prober_run(step.0, outcomes.drop_first()).1 =~= Seq::empty());
        assert(prober_run(p, outcomes).1 =~= seq![step.1]);
    } else {
        lemma_probe_all_down_general(step.0, outcomes.drop_first());
        let tail = prober_run(step.0, outcomes.drop_first());
        assert(prober_run(p, outcomes).1 == seq![step.1] + tail.1);
        assert(prober_run(p, outcomes).1.last() == tail.1.last());
    }
}

/// Law: a probe whose endpoint never succeeds makes exactly `retries`
/// attempts — no more, no fewer — and its final action is the failure
/// carrying the message that names `retries`; every earlier action is a
/// retry after the configured delay.
pub proof fn lemma_probe_exhaustion(p: ProberModel, outcomes: Seq<ProbeOutcomeView>)
    requires
        !p.done,
        p.attempts == 0,
        p.retries >= 1,
        outcomes.len() == p.retries,
        forall|i: int| 0 <= i < outcomes.len() ==> outcomes[i] is Down,
    ensures
        prober_run(p, outcomes).0.attempts == p.retries,
        prober_run(p, outcomes).0.done,
        prober_run(p, outcomes).1.len() == p.retries,
        prober_run(p, outcomes).1.last() == (ProbeActionView::Exhausted {
            message: exhausted_chars(p.retries),
        }),
        forall|i: int|
            0 <= i < p.retries - 1 ==> prober_run(p, outcomes).1[i] == (ProbeActionView::Retry {
                delay_ms: p.delay_ms,
            }),
{
    lemma_probe_all_down_general(p, outcomes);
}

proof fn lemma_probe_first_success_general(
    p: ProberModel,
    outcomes: Seq<ProbeOutcomeView>,
    k: int,
)
    requires
        !p.done,
        0 <= k,
        outcomes.len() == k + 1,
        p.attempts + k + 1 <= p.retries,
        forall|i: int| 0 <= i < k ==> outcomes[i] is Down,
        outcomes[k] is Up,
    ensures
        prober_run(p, outcomes).0.done,
        prober_run(p, outcomes).0.attempts == p.attempts + k + 1,
        prober_run(p, outcomes).1.len() == k + 1,
        prober_run(p, outcomes).1[k] == (ProbeActionView::Ready { body: outcome_body(outcomes[k]) }),
        forall|i: int|
            0 <= i < k ==> prober_run(p, outcomes).1[i] == (ProbeActionView::Retry {
                delay_ms: p.delay_ms,
            }),
    decreases outcomes.len(),
{
    let step = prober_step(p, outcomes[0]);
    if k == 0 {
        assert(prober_run(step.0, outcomes.drop_first()).1 =~= Seq::empty());
        assert(prober_run(p, outcomes).1 =~= seq![step.1]);
    } else {
        lemma_probe_first_success_general(step.0, outcomes.drop_first(), k - 1);
        let tail = prober_run(step.0, outcomes.drop_first());
        assert(prober_run(p, outcomes).1 == seq![step.1] + tail.1);
        assert(prober_run(p, outcomes).1[k] == tail.1[k - 1]);
    }
}

/// Law: if the endpoint first succeeds on attempt index `k` (counting
/// from 0, with `k` within the retry budget), the probe ends with that
/// attempt's body after exactly `k + 1` attempts, and commands exactly
/// `k` sleeps of the configured delay before it — so two failures
/// followed by a success take three attempts and two full delays.
pub proof fn lemma_probe_first_success(p: ProberModel, outcomes: Seq<ProbeOutcomeView>, k: int)
    requires
        !p.done,
        p.attempts == 0,
        0 <= k,
        outcomes.len() == k + 1,
        k + 1 <= p.retries,
        forall|i: int| 0 <= i < k ==> outcomes[i] is Down,
        outcomes[k] is Up,
    ensures
        prober_run(p, outcomes).0.done,
        prober_run(p, outcomes).0.attempts == k + 1,
        prober_run(p, outcomes).1.len() == k + 1,
        prober_run(p, outcomes).1[k] == (ProbeActionView::Ready { body: outcome_body(outcomes[k]) }),
        forall|i: int|
            0 <= i < k ==> prober_run(p, outcomes).1[i] == (ProbeActionView::Retry {
                delay_ms: p.delay_ms,
            }),
{
    lemma_probe_first_success_general(p, outcomes, k);
}

} // verus!
