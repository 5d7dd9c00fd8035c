//! Waiting for the sidecar to report that it is ready.
//!
//! The waiter decides, at each moment the caller asks, whether to probe the
//! readiness endpoint now, to sleep first, or to stop. The caller performs
//! the probe and the sleep and reads the clock; times are milliseconds since
//! the wait began.
use vstd::prelude::*;

verus! {

/// Where the wait stands.
#[derive(Clone, Copy, Debug, PartialEq, Eq, Structural)]
pub enum ReadinessState {
    /// No probe has been sent yet.
    Waiting,
    /// A probe has been sent and its result is not known yet.
    Probing,
    /// The last probe got a success response.
    Ready,
    /// The last probe got another response, or no response.
    ProbeFailed,
    /// The deadline passed before any probe succeeded.
    TimedOut,
}

/// What the caller should do next.
#[derive(Clone, Copy, Debug, PartialEq, Eq, Structural)]
pub enum WaitAction {
    /// Send one probe now and report its result.
    Probe,
    /// Sleep this many milliseconds, then ask again.
    Sleep(u64),
    /// The sidecar is ready: the wait is over.
    Ready,
    /// The deadline passed: the wait failed.
    TimedOut,
}

/// A fixed-interval readiness wait, with an optional deadline.
#[derive(Clone, Copy, Debug, PartialEq, Eq, Structural)]
pub struct ReadinessWaiter {
    pub interval_ms: u64,
    pub deadline_ms: Option<u64>,
    pub state: ReadinessState,
    /// When the last probe was sent.
    pub last_probe_ms: u64,
}

impl ReadinessWaiter {
    pub open spec fn deadline_passed(self, now: u64) -> bool {
        match self.deadline_ms {
            Some(d) => now >= d,
            None => false,
        }
    }

    /// Time since the last probe (none for a clock that went back).
    pub open spec fn since_probe(self, now: u64) -> int {
        if now >= self.last_probe_ms {
            now - self.last_probe_ms
        } else {
            0
        }
    }

    /// How long to sleep before the next probe is due: the rest of the
    /// interval, cut short at the deadline.
    pub open spec fn pause(self, now: u64) -> int {
        let rest = self.interval_ms - self.since_probe(now);
        match self.deadline_ms {
            Some(d) => if d - now < rest {
                d - now
            } else {
                rest
            },
            None => rest,
        }
    }

    /// The waiter after a poll at `now`, and the action it asks for.
    pub open spec fn poll_spec(self, now: u64) -> (ReadinessWaiter, WaitAction) {
        match self.state {
            ReadinessState::Ready => (self, WaitAction::Ready),
            ReadinessState::TimedOut => (self, WaitAction::TimedOut),
            _ => if self.deadline_passed(now) {
                (ReadinessWaiter { state: ReadinessState::TimedOut, ..self }, WaitAction::TimedOut)
            } else if self.state is Waiting || self.since_probe(now) >= self.interval_ms {
                (
                    ReadinessWaiter { state: ReadinessState::Probing, last_probe_ms: now, ..self },
                    WaitAction::Probe,
                )
            } else {
                (self, WaitAction::Sleep(self.pause(now) as u64))
            },
        }
    }

    /// The waiter after the result of the probe in flight.
    pub open spec fn record_spec(self, success: bool) -> ReadinessWaiter {
        ReadinessWaiter {
            state: if success {
                ReadinessState::Ready
            } else {
                ReadinessState::ProbeFailed
            },
            ..self
        }
    }

    pub open spec fn new_spec(interval_ms: u64, deadline_ms: Option<u64>) -> ReadinessWaiter {
        ReadinessWaiter { interval_ms, deadline_ms, state: ReadinessState::Waiting, last_probe_ms: 0 }
    }

    /// A wait that probes every `interval_ms` and, with a deadline, gives up
    /// once `deadline_ms` has passed.
    pub fn new(interval_ms: u64, deadline_ms: Option<u64>) -> (r: ReadinessWaiter)
        ensures
            r == ReadinessWaiter::new_spec(interval_ms, deadline_ms),
    {
        ReadinessWaiter { interval_ms, deadline_ms, state: ReadinessState::Waiting, last_probe_ms: 0 }
    }

    /// Decides what to do at time `now_ms`. A probe is due at once when none
    /// was sent yet, and otherwise a full interval after the last one; no
    /// probe goes out once the deadline has passed.
    pub fn poll(&mut self, now_ms: u64) -> (r: WaitAction)
        requires
            !(old(self).state is Probing),
        ensures
            (*final(self), r) == old(self).poll_spec(now_ms),
    {
        match self.state {
            ReadinessState::Ready => WaitAction::Ready,
            ReadinessState::TimedOut => WaitAction::TimedOut,
            _ => {
                let passed = match self.deadline_ms {
                    Some(d) => now_ms >= d,
                    None => false,
                };
                let since: u64 = if now_ms >= self.last_probe_ms {
                    now_ms - self.last_probe_ms
                } else {
                    0
                };
                if passed {
                    self.state = ReadinessState::TimedOut;
                    WaitAction::TimedOut
                } else if self.state == ReadinessState::Waiting || since >= self.interval_ms {
                    self.state = ReadinessState::Probing;
                    self.last_probe_ms = now_ms;
                    WaitAction::Probe
                } else {
                    let rest: u64 = self.interval_ms - since;
                    let pause: u64 = match self.deadline_ms {
                        Some(d) => if d - now_ms < rest {
                            d - now_ms
                        } else {
                            rest
                        },
                        None => rest,
                    };
                    WaitAction::Sleep(pause)
                }
            },
        }
    }

    /// Takes in the result of the probe in flight: a success response ends
    /// the wait.
    pub fn record_probe(&mut self, success: bool)
        requires
            old(self).state is Probing,
        ensures
            *final(self) == old(self).record_spec(success),
    {
        self.state = if success {
            ReadinessState::Ready
        } else {
            ReadinessState::ProbeFailed
        };
    }

    /// Whether the wait ended with the sidecar ready.
    pub fn is_ready(&self) -> (r: bool)
        ensures
            r == (self.state is Ready),
    {
        self.state == ReadinessState::Ready
    }
}

/// What a wait did when run against a clock that a sleep advances by
/// exactly its length and a probe does not advance.
pub struct WaitTrace {
    pub waiter: ReadinessWaiter,
    /// The time at which the run stopped.
    pub end_ms: u64,
    /// The times at which probes were sent, in order.
    pub probe_times: Seq<u64>,
}

/// Runs a wait from `now` for at most `steps` polls. The `i`-th probe
/// succeeds when `results[i]` is true; probes beyond `results` fail. The run
/// stops early once the waiter reports ready or timed out.
pub open spec fn run_wait(w: ReadinessWaiter, now: u64, results: Seq<bool>, steps: nat) -> WaitTrace
    decreases steps,
{
    if steps == 0 {
        WaitTrace { waiter: w, end_ms: now, probe_times: Seq::empty() }
    } else {
        let (w1, action) = w.poll_spec(now);
        match action {
            WaitAction::Probe => {
                let ok = results.len() > 0 && results[0];
                let later = if results.len() > 0 {
                    results.drop_first()
                } else {
                    results
                };
                let rest = run_wait(w1.record_spec(ok), now, later, (steps - 1) as nat);
                WaitTrace { probe_times: seq![now].add(rest.probe_times), ..rest }
            },
            WaitAction::Sleep(d) => run_wait(w1, (now + d) as u64, results, (steps - 1) as nat),
            _ => WaitTrace { waiter: w1, end_ms: now, probe_times: Seq::empty() },
        }
    }
}

/// `k` failed probes followed by a successful one.
pub open spec fn fails_then_success(k: nat) -> Seq<bool> {
    Seq::new(k, |i: int| false).push(true)
}

proof fn lemma_ready_after_failures(r: u64, last: u64, j: nat, steps: nat)
    requires
        last + (j + 1) * r <= u64::MAX,
        steps >= 2 * j + 2,
    ensures
        ({
            let w = ReadinessWaiter {
                interval_ms: r,
                deadline_ms: None,
                state: ReadinessState::ProbeFailed,
                last_probe_ms: last,
            };
            let t = run_wait(w, last, fails_then_success(j), steps);
            &&& t.waiter.state == ReadinessState::Ready
            &&& t.probe_times =~= Seq::new(j + 1, |i: int| (last + (i + 1) * r) as u64)
        }),
    decreases j,
{
    let w = ReadinessWaiter {
        interval_ms: r,
        deadline_ms: None,
        state: ReadinessState::ProbeFailed,
        last_probe_ms: last,
    };
    let rs = fails_then_success(j);
    assert(r <= (j + 1) * r) by (nonlinear_arith);
    let next: u64 = (last + r) as u64;
    // the poll at which the next probe goes out
    let (probe_w, probe_steps) = if r == 0 {
        (w, steps)
    } else {
        assert(w.poll_spec(last).1 == WaitAction::Sleep(r));
        (w, (steps - 1) as nat)
    };
    assert(run_wait(w, last, rs, steps) == run_wait(probe_w, next, rs, probe_steps));
    let w1 = ReadinessWaiter { state: ReadinessState::Probing, last_probe_ms: next, ..w };
    assert(probe_w.poll_spec(next) == (w1, WaitAction::Probe));
    if j == 0 {
        assert(rs[0]);
        let wr = w1.record_spec(true);
        let rest = run_wait(wr, next, rs.drop_first(), (probe_steps - 1) as nat);
        assert(rest.waiter == wr && rest.probe_times =~= Seq::<u64>::empty());
        assert((0 + 1) * r == r) by (nonlinear_arith);
        assert(seq![next].add(rest.probe_times) =~= Seq::new(
            j + 1,
            |i: int| (last + (i + 1) * r) as u64,
        ));
    } else {
        assert(!rs[0]);
        assert(rs.drop_first() =~= fails_then_success((j - 1) as nat));
        assert(last + r + ((j - 1) + 1) * r == last + (j + 1) * r) by (nonlinear_arith);
        lemma_ready_after_failures(r, next, (j - 1) as nat, (probe_steps - 1) as nat);
        let t = run_wait(w1.record_spec(false), next, rs.drop_first(), (probe_steps - 1) as nat);
        let expected = Seq::new(j + 1, |i: int| (last + (i + 1) * r) as u64);
        let tail = Seq::new(j, |i: int| (next + (i + 1) * r) as u64);
        assert forall|i: int| 0 <= i < j implies #[trigger] tail[i] == expected[i + 1] by {
            assert(next + (i + 1) * r == last + (i + 2) * r) by (nonlinear_arith)
                requires
                    next == last + r,
            ;
        }
        assert(t.probe_times =~= tail);
        assert((0 + 1) * r == r) by (nonlinear_arith);
        assert(seq![next].add(tail) =~= expected);
    }
}

/// With no deadline, a wait at interval `r` against an endpoint that fails
/// `k` times before it succeeds sends exactly `k + 1` probes, the `i`-th at
/// `i * r` (so a full interval apart), and ends ready after the last.
pub proof fn lemma_probes_until_ready(r: u64, k: nat, steps: nat)
    requires
        k * r <= u64::MAX,
        steps >= 2 * k + 2,
    ensures
        ({
            let t = run_wait(ReadinessWaiter::new_spec(r, None), 0, fails_then_success(k), steps);
            &&& t.waiter.state == ReadinessState::Ready
            &&& t.probe_times =~= Seq::new(k + 1, |i: int| (i * r) as u64)
        }),
{
    let w0 = ReadinessWaiter::new_spec(r, None);
    let rs = fails_then_success(k);
    let w1 = ReadinessWaiter { state: ReadinessState::Probing, last_probe_ms: 0, ..w0 };
    assert(w0.poll_spec(0) == (w1, WaitAction::Probe));
    if k == 0 {
        assert(rs[0]);
        let wr = w1.record_spec(true);
        let rest = run_wait(wr, 0, rs.drop_first(), (steps - 1) as nat);
        assert(rest.waiter == wr && rest.probe_times =~= Seq::<u64>::empty());
        assert(seq![0u64].add(rest.probe_times) =~= Seq::new(k + 1, |i: int| (i * r) as u64));
    } else {
        assert(!rs[0]);
        assert(rs.drop_first() =~= fails_then_success((k - 1) as nat));
        assert(0 + ((k - 1) + 1) * r == k * r) by (nonlinear_arith);
        lemma_ready_after_failures(r, 0, (k - 1) as nat, (steps - 1) as nat);
        let tail = Seq::new(k as nat, |i: int| (0 + (i + 1) * r) as u64);
        let expected = Seq::new(k + 1, |i: int| (i * r) as u64);
        assert forall|i: int| 0 <= i < k implies #[trigger] tail[i] == expected[i + 1] by {}
        assert(0 * r == 0) by (nonlinear_arith);
        assert(seq![0u64].add(tail) =~= expected);
    }
}

/// How many more polls a wait with a deadline may take before it stops:
/// two per millisecond left, and one for a probe that is due now.
pub open spec fn polls_left(w: ReadinessWaiter, now: u64, d: u64) -> nat {
    let due = w.state is Waiting || (w.state is ProbeFailed && w.since_probe(now) >= w.interval_ms);
    (2 * (if now < d {
        d - now
    } else {
        0
    }) + if due {
        1int
    } else {
        0int
    }) as nat
}

proof fn lemma_times_out(w: ReadinessWaiter, now: u64, d: u64, results: Seq<bool>, steps: nat)
    requires
        w.interval_ms > 0,
        w.deadline_ms == Some(d),
        w.state is Waiting || w.state is ProbeFailed,
        w.last_probe_ms <= now,
        forall|i: int| 0 <= i < results.len() ==> !results[i],
        steps > polls_left(w, now, d),
    ensures
        ({
            let t = run_wait(w, now, results, steps);
            &&& t.waiter.state == ReadinessState::TimedOut
            &&& t.end_ms >= d
            &&& forall|i: int| 0 <= i < t.probe_times.len() ==> t.probe_times[i] < d
        }),
    decreases steps,
{
    let (w1, action) = w.poll_spec(now);
    if now >= d {
    } else if action is Probe {
        let w2 = w1.record_spec(false);
        let rest = if results.len() > 0 {
            results.drop_first()
        } else {
            results
        };
        assert(results.len() > 0 ==> !results[0]);
        assert forall|i: int| 0 <= i < rest.len() implies !#[trigger] rest[i] by {
            if results.len() > 0 {
                assert(rest[i] == results[i + 1]);
            }
        }
        lemma_times_out(w2, now, d, rest, (steps - 1) as nat);
        let t = run_wait(w2, now, rest, (steps - 1) as nat);
        assert forall|i: int| 0 <= i < 1 + t.probe_times.len() implies #[trigger] seq![now].add(
            t.probe_times,
        )[i] < d by {
            if i > 0 {
                assert(seq![now].add(t.probe_times)[i] == t.probe_times[i - 1]);
            }
        }
    } else {
        let p = w.pause(now);
        assert(1 <= p <= d - now);
        lemma_times_out(w1, (now + p) as u64, d, results, (steps - 1) as nat);
    }
}

/// With a deadline `d` and an endpoint that never succeeds, a wait at
/// interval `r > 0` fails with a timeout, no earlier than `d`, and every
/// probe it sends goes out before `d`.
pub proof fn lemma_times_out_at_deadline(r: u64, d: u64, results: Seq<bool>, steps: nat)
    requires
        r > 0,
        forall|i: int| 0 <= i < results.len() ==> !results[i],
        steps >= 2 * d + 2,
    ensures
        ({
            let t = run_wait(ReadinessWaiter::new_spec(r, Some(d)), 0, results, steps);
            &&& t.waiter.state == ReadinessState::TimedOut
            &&& t.end_ms >= d
            &&& forall|i: int| 0 <= i < t.probe_times.len() ==> t.probe_times[i] < d
        }),
{
    lemma_times_out(ReadinessWaiter::new_spec(r, Some(d)), 0, d, results, steps);
}

/// Once a wait has timed out it stays timed out, and sends no more probes.
pub proof fn lemma_timed_out_is_final(w: ReadinessWaiter, now: u64)
    requires
        w.state is TimedOut,
    ensures
        w.poll_spec(now) == (w, WaitAction::TimedOut),
{
}

} // verus!
