//! The readiness probe: a bounded number of attempts against the health
//! endpoint, a fixed pause after each failure, and a sparse progress log.
//!
//! The probe itself sends nothing and never sleeps. It is told the outcome of
//! each attempt and answers with what to do next.

use vstd::prelude::*;

verus! {

/// The probe gives up after this many attempts.
pub const MAX_ATTEMPTS: u32 = 30;

/// Pause after a failed attempt, in milliseconds.
pub const RETRY_INTERVAL_MS: u64 = 500;

/// Progress is announced on the first failed attempt of every run of this
/// many attempts: the 1st, the 6th, the 11th and so on.
pub const PROGRESS_EVERY: u32 = 5;

/// How one attempt against the health endpoint ended.
#[derive(Clone, Copy, Debug, PartialEq, Eq, Structural)]
pub enum AttemptOutcome {
    /// A response with a success status came back.
    Success,
    /// No response: connection refused, timeout or another transport fault.
    TransportFailure,
    /// A response came back with a status outside the success class.
    NonSuccessStatus,
}

/// Where the probe stands.
#[derive(Clone, Copy, Debug, PartialEq, Eq, Structural)]
pub enum ProbePhase {
    /// More attempts may follow.
    Polling,
    /// An attempt succeeded; the probe is over.
    Ready,
    /// Every attempt failed; the probe is over and readiness was never
    /// confirmed.
    Exhausted,
}

/// One attempt as the probe saw it.
#[derive(Clone, Copy, Debug, PartialEq, Eq, Structural)]
pub struct HealthCheckAttempt {
    /// Number of the attempt, counted from 1.
    pub index: u32,
    /// How it ended.
    pub outcome: AttemptOutcome,
    /// Milliseconds the probe had spent pausing when the attempt was made.
    pub at_ms: u64,
}

/// What follows an attempt.
#[derive(Clone, Copy, Debug, PartialEq, Eq, Structural)]
pub enum ProbeNext {
    /// Pause for this many milliseconds, then make the next attempt.
    RetryAfter(u64),
    /// The backend is ready. Stop without pausing.
    Ready,
    /// Pause for this many milliseconds, then stop with a warning: the
    /// backend never confirmed readiness. This is no error.
    GiveUpAfter(u64),
}

/// The probe's answer to one recorded attempt.
#[derive(Clone, Copy, Debug, PartialEq, Eq, Structural)]
pub struct ProbeStep {
    /// The attempt that was recorded.
    pub attempt: HealthCheckAttempt,
    /// Whether to log progress for this attempt.
    pub announce: bool,
    /// What to do next.
    pub next: ProbeNext,
}

/// What a probe is to its contracts.
pub ghost struct ProbeModel {
    /// Attempts recorded so far.
    pub attempts: nat,
    /// Milliseconds of pause asked for so far.
    pub waited_ms: nat,
    pub phase: ProbePhase,
}

/// A probe before its first attempt.
pub open spec fn probe_start() -> ProbeModel {
    ProbeModel { attempts: 0, waited_ms: 0, phase: ProbePhase::Polling }
}

/// Attempts count up to the maximum, every failed attempt is followed by one
/// pause, and the probe is exhausted exactly when the maximum was reached
/// without a success.
pub open spec fn probe_wf(m: ProbeModel) -> bool {
    match m.phase {
        ProbePhase::Polling => m.attempts < MAX_ATTEMPTS && m.waited_ms == RETRY_INTERVAL_MS
            * m.attempts,
        ProbePhase::Ready => 1 <= m.attempts <= MAX_ATTEMPTS && m.waited_ms == RETRY_INTERVAL_MS
            * (m.attempts - 1),
        ProbePhase::Exhausted => m.attempts == MAX_ATTEMPTS && m.waited_ms == RETRY_INTERVAL_MS
            * MAX_ATTEMPTS,
    }
}

/// The probe after one more outcome. A probe that is over ignores it.
pub open spec fn probe_step(m: ProbeModel, outcome: AttemptOutcome) -> ProbeModel {
    if m.phase != ProbePhase::Polling {
        m
    } else if outcome == AttemptOutcome::Success {
        ProbeModel { attempts: m.attempts + 1, waited_ms: m.waited_ms, phase: ProbePhase::Ready }
    } else {
        ProbeModel {
            attempts: m.attempts + 1,
            waited_ms: m.waited_ms + (RETRY_INTERVAL_MS as nat),
            phase: if m.attempts + 1 >= MAX_ATTEMPTS {
                ProbePhase::Exhausted
            } else {
                ProbePhase::Polling
            },
        }
    }
}

/// Whether the attempt that ends with `outcome` is announced: it failed, and
/// it is the first of a run of `PROGRESS_EVERY` attempts.
pub open spec fn announces(m: ProbeModel, outcome: AttemptOutcome) -> bool {
    m.phase == ProbePhase::Polling && outcome != AttemptOutcome::Success && m.attempts
        % (PROGRESS_EVERY as nat) == 0
}

/// What follows the attempt that ends with `outcome`.
pub open spec fn next_after(m: ProbeModel, outcome: AttemptOutcome) -> ProbeNext {
    if outcome == AttemptOutcome::Success {
        ProbeNext::Ready
    } else if m.attempts + 1 >= MAX_ATTEMPTS {
        ProbeNext::GiveUpAfter(RETRY_INTERVAL_MS)
    } else {
        ProbeNext::RetryAfter(RETRY_INTERVAL_MS)
    }
}

/// The probe after a whole sequence of outcomes, taken in order.
pub open spec fn probe_run(outcomes: Seq<AttemptOutcome>) -> ProbeModel
    decreases outcomes.len(),
{
    if outcomes.len() == 0 {
        probe_start()
    } else {
        probe_step(probe_run(outcomes.drop_last()), outcomes.last())
    }
}

/// The attempts of `outcomes` that are announced, by their numbers, in order.
pub open spec fn announced(outcomes: Seq<AttemptOutcome>) -> Seq<nat>
    decreases outcomes.len(),
{
    if outcomes.len() == 0 {
        Seq::empty()
    } else {
        let before = probe_run(outcomes.drop_last());
        if announces(before, outcomes.last()) {
            announced(outcomes.drop_last()).push(before.attempts + 1)
        } else {
            announced(outcomes.drop_last())
        }
    }
}

/// Whether `numbers` holds, one by one, the attempt numbers of `wanted`.
pub open spec fn same_numbers(numbers: Seq<u32>, wanted: Seq<nat>) -> bool {
    &&& numbers.len() == wanted.len()
    &&& forall|i: int| 0 <= i < numbers.len() ==> #[trigger] numbers[i] == wanted[i]
}

/// The state of one readiness probe.
pub struct ReadinessProbe {
    attempts: u32,
    waited_ms: u64,
    phase: ProbePhase,
}

/// A probe after a run over known outcomes, with what it announced.
pub struct ProbeRun {
    /// The probe as the run left it.
    pub probe: ReadinessProbe,
    /// Numbers of the attempts for which progress was logged, in order.
    pub announced: Vec<u32>,
}

impl View for ReadinessProbe {
    type V = ProbeModel;

    closed spec fn view(&self) -> ProbeModel {
        ProbeModel {
            attempts: self.attempts as nat,
            waited_ms: self.waited_ms as nat,
            phase: self.phase,
        }
    }
}

impl ReadinessProbe {
    /// The invariant every method keeps.
    pub open spec fn wf(&self) -> bool {
        probe_wf(self@)
    }

    /// A probe that has made no attempt yet.
    pub fn new() -> (p: Self)
        ensures
            p.wf(),
            p@ == probe_start(),
    {
        ReadinessProbe { attempts: 0, waited_ms: 0, phase: ProbePhase::Polling }
    }

    /// Records how the attempt that was just made ended, and says what to do
    /// next. A probe that is already over records nothing and returns `None`.
    pub fn record(&mut self, outcome: AttemptOutcome) -> (step: Option<ProbeStep>)
        requires
            old(self).wf(),
        ensures
            final(self).wf(),
            final(self)@ == probe_step(old(self)@, outcome),
            old(self)@.phase != ProbePhase::Polling ==> step is None,
            old(self)@.phase == ProbePhase::Polling ==> step is Some && ({
                let s = step->0;
                &&& s.attempt.index == old(self)@.attempts + 1
                &&& s.attempt.outcome == outcome
                &&& s.attempt.at_ms == old(self)@.waited_ms
                &&& s.announce == announces(old(self)@, outcome)
                &&& s.next == next_after(old(self)@, outcome)
            }),
    {
        match self.phase {
            ProbePhase::Polling => {},
            _ => {
                return None;
            },
        }
        let index: u32 = self.attempts + 1;
        let attempt = HealthCheckAttempt { index, outcome, at_ms: self.waited_ms };
        let failed: bool = match outcome {
            AttemptOutcome::Success => false,
            _ => true,
        };
        let announce: bool = failed && self.attempts % PROGRESS_EVERY == 0;
        self.attempts = index;
        let next = if !failed {
            self.phase = ProbePhase::Ready;
            ProbeNext::Ready
        } else {
            self.waited_ms = self.waited_ms + RETRY_INTERVAL_MS;
            if index >= MAX_ATTEMPTS {
                self.phase = ProbePhase::Exhausted;
                ProbeNext::GiveUpAfter(RETRY_INTERVAL_MS)
            } else {
                ProbeNext::RetryAfter(RETRY_INTERVAL_MS)
            }
        };
        Some(ProbeStep { attempt, announce, next })
    }

    /// Runs a probe over outcomes that are already known, in order, and
    /// collects the numbers of the attempts that were announced. Outcomes that
    /// come after the probe is over are ignored.
    pub fn replay(outcomes: &Vec<AttemptOutcome>) -> (run: ProbeRun)
        ensures
            run.probe.wf(),
            run.probe@ == probe_run(outcomes@),
            same_numbers(run.announced@, announced(outcomes@)),
    {
        let mut probe = ReadinessProbe::new();
        let mut log: Vec<u32> = Vec::new();
        let mut i: usize = 0;
        assert(outcomes@.take(0) =~= Seq::empty());
        while i < outcomes.len()
            invariant
                i <= outcomes.len(),
                probe.wf(),
                probe@ == probe_run(outcomes@.take(i as int)),
                same_numbers(log@, announced(outcomes@.take(i as int))),
            decreases outcomes.len() - i,
        {
            proof {
                assert(outcomes@.take(i + 1).drop_last() =~= outcomes@.take(i as int));
            }
            match probe.record(outcomes[i]) {
                Some(step) => {
                    if step.announce {
                        log.push(step.attempt.index);
                    }
                },
                None => {},
            }
            i = i + 1;
        }
        assert(outcomes@.take(i as int) =~= outcomes@);
        ProbeRun { probe, announced: log }
    }

    /// Attempts recorded so far.
    pub fn attempts(&self) -> (n: u32)
        ensures
            n == self@.attempts,
    {
        self.attempts
    }

    /// Milliseconds of pause asked for so far.
    pub fn waited_ms(&self) -> (ms: u64)
        ensures
            ms == self@.waited_ms,
    {
        self.waited_ms
    }

    /// Where the probe stands.
    pub fn phase(&self) -> (phase: ProbePhase)
        ensures
            phase == self@.phase,
    {
        self.phase
    }

    /// Whether the backend confirmed readiness.
    pub fn is_ready(&self) -> (ready: bool)
        ensures
            ready == (self@.phase == ProbePhase::Ready),
    {
        match self.phase {
            ProbePhase::Ready => true,
            _ => false,
        }
    }

    /// Whether the probe is over, with or without success.
    pub fn is_finished(&self) -> (finished: bool)
        ensures
            finished == (self@.phase != ProbePhase::Polling),
    {
        match self.phase {
            ProbePhase::Polling => false,
            _ => true,
        }
    }
}

/// Whether none of the first `n` outcomes is a success.
pub open spec fn all_fail(outcomes: Seq<AttemptOutcome>, n: int) -> bool {
    forall|i: int| 0 <= i < n ==> #[trigger] outcomes[i] != AttemptOutcome::Success
}

/// Whatever the endpoint answers, a probe stays within its bounds: never more
/// than `MAX_ATTEMPTS` attempts, and a pause after each failed one.
pub proof fn lemma_run_is_wf(outcomes: Seq<AttemptOutcome>)
    ensures
        probe_wf(probe_run(outcomes)),
        probe_run(outcomes).attempts <= MAX_ATTEMPTS,
        probe_run(outcomes).attempts <= outcomes.len(),
        probe_run(outcomes).phase == ProbePhase::Polling ==> probe_run(outcomes).attempts
            == outcomes.len(),
    decreases outcomes.len(),
{
    if outcomes.len() > 0 {
        lemma_run_is_wf(outcomes.drop_last());
    }
}

/// While every outcome is a failure and fewer than `MAX_ATTEMPTS` have been
/// seen, the probe keeps polling and has paused once per attempt.
pub proof fn lemma_failures_keep_polling(outcomes: Seq<AttemptOutcome>)
    requires
        outcomes.len() < MAX_ATTEMPTS,
        all_fail(outcomes, outcomes.len() as int),
    ensures
        probe_run(outcomes) == (ProbeModel {
            attempts: outcomes.len(),
            waited_ms: (RETRY_INTERVAL_MS * outcomes.len()) as nat,
            phase: ProbePhase::Polling,
        }),
    decreases outcomes.len(),
{
    if outcomes.len() > 0 {
        let front = outcomes.drop_last();
        assert forall|i: int| 0 <= i < front.len() implies #[trigger] front[i]
            != AttemptOutcome::Success by {
            assert(front[i] == outcomes[i]);
        }
        lemma_failures_keep_polling(front);
    }
}

/// Once a probe is over, further outcomes change nothing.
pub proof fn lemma_finished_probe_ignores(outcomes: Seq<AttemptOutcome>, n: int)
    requires
        0 <= n <= outcomes.len(),
        probe_run(outcomes.take(n)).phase != ProbePhase::Polling,
    ensures
        probe_run(outcomes) == probe_run(outcomes.take(n)),
    decreases outcomes.len(),
{
    if outcomes.len() == n {
        assert(outcomes.take(n) =~= outcomes);
    } else {
        let front = outcomes.drop_last();
        assert(front.take(n) =~= outcomes.take(n));
        lemma_finished_probe_ignores(front, n);
    }
}

/// If the first success comes on attempt `k`, with `k` from 1 to
/// `MAX_ATTEMPTS`, the probe ends ready after exactly `k` attempts, having
/// paused `(k - 1)` times, whatever the endpoint would have answered later.
pub proof fn lemma_ready_on_first_success(outcomes: Seq<AttemptOutcome>, k: int)
    requires
        1 <= k <= MAX_ATTEMPTS,
        k <= outcomes.len(),
        all_fail(outcomes, k - 1),
        outcomes[k - 1] == AttemptOutcome::Success,
    ensures
        probe_run(outcomes) == (ProbeModel {
            attempts: k as nat,
            waited_ms: (RETRY_INTERVAL_MS * (k - 1)) as nat,
            phase: ProbePhase::Ready,
        }),
{
    let upto = outcomes.take(k);
    let front = upto.drop_last();
    assert(front =~= outcomes.take(k - 1));
    assert forall|i: int| 0 <= i < front.len() implies #[trigger] front[i]
        != AttemptOutcome::Success by {
        assert(front[i] == outcomes[i]);
    }
    lemma_failures_keep_polling(front);
    assert(upto.last() == outcomes[k - 1]);
    lemma_finished_probe_ignores(outcomes, k);
}

/// If none of the first `MAX_ATTEMPTS` attempts succeeds, the probe makes
/// exactly that many, pauses after each of them, and ends exhausted.
pub proof fn lemma_exhausted_without_success(outcomes: Seq<AttemptOutcome>)
    requires
        outcomes.len() >= MAX_ATTEMPTS,
        all_fail(outcomes, MAX_ATTEMPTS as int),
    ensures
        probe_run(outcomes) == (ProbeModel {
            attempts: MAX_ATTEMPTS as nat,
            waited_ms: (RETRY_INTERVAL_MS * MAX_ATTEMPTS) as nat,
            phase: ProbePhase::Exhausted,
        }),
{
    let n = MAX_ATTEMPTS as int;
    let upto = outcomes.take(n);
    let front = upto.drop_last();
    assert(front =~= outcomes.take(n - 1));
    assert forall|i: int| 0 <= i < front.len() implies #[trigger] front[i]
        != AttemptOutcome::Success by {
        assert(front[i] == outcomes[i]);
    }
    lemma_failures_keep_polling(front);
    assert(upto.last() == outcomes[n - 1]);
    lemma_finished_probe_ignores(outcomes, n);
}

/// Fed `MAX_ATTEMPTS` outcomes or more, a probe is over, one way or the other.
pub proof fn lemma_enough_outcomes_finish(outcomes: Seq<AttemptOutcome>)
    requires
        outcomes.len() >= MAX_ATTEMPTS,
    ensures
        probe_run(outcomes).phase != ProbePhase::Polling,
{
    lemma_run_is_wf(outcomes);
}

/// Progress is announced for exactly those attempts that were made, that
/// failed, and that open a run of `PROGRESS_EVERY` attempts: the 1st, the
/// 6th, the 11th and so on.
pub proof fn lemma_announced_on_cadence(outcomes: Seq<AttemptOutcome>, n: nat)
    ensures
        announced(outcomes).contains(n) <==> {
            &&& 1 <= n <= probe_run(outcomes).attempts
            &&& (n - 1) % (PROGRESS_EVERY as int) == 0
            &&& outcomes[n - 1] != AttemptOutcome::Success
        },
    decreases outcomes.len(),
{
    if outcomes.len() == 0 {
        assert(announced(outcomes) =~= Seq::<nat>::empty());
    } else {
        let front = outcomes.drop_last();
        let before = probe_run(front);
        let earlier = announced(front);
        lemma_run_is_wf(front);
        lemma_announced_on_cadence(front, n);
        if 1 <= n <= front.len() {
            assert(front[n - 1] == outcomes[n - 1]);
        }
        if announces(before, outcomes.last()) {
            let number = before.attempts + 1;
            let all = earlier.push(number);
            assert(announced(outcomes) == all);
            if earlier.contains(n) {
                let i = choose|i: int| 0 <= i < earlier.len() && earlier[i] == n;
                assert(all[i] == n);
            }
            if n == number {
                assert(all[earlier.len() as int] == n);
            }
            if all.contains(n) {
                let i = choose|i: int| 0 <= i < all.len() && all[i] == n;
                if i < earlier.len() {
                    assert(earlier[i] == n);
                }
            }
        }
    }
}

} // verus!
