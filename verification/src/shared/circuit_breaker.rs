//! A circuit breaker: after too many failures in a row it holds calls back,
//! and after a pause it lets one through to see whether the service is back.
//!
//! The breaker keeps no clock. Its pause and every `now` handed to it count
//! the same unit on one clock that never runs backwards.

use vstd::prelude::*;

verus! {

/// Where a circuit breaker stands.
#[derive(Debug, Clone, Copy, PartialEq, Eq, Structural)]
pub enum CircuitState {
    /// Calls pass.
    Closed,
    /// Calls are held back.
    Open,
    /// One trial call is let through.
    HalfOpen,
}

/// A circuit breaker as the contracts see it.
pub struct BreakerModel {
    /// Failures since the last success.
    pub failures: nat,
    /// The number of failures in a row at which the breaker opens.
    pub threshold: nat,
    /// How long an open breaker holds calls back.
    pub timeout: nat,
    pub state: CircuitState,
    /// When the last failure was recorded.
    pub last_failure: Option<nat>,
}

impl BreakerModel {
    /// A breaker that has seen nothing yet.
    pub open spec fn fresh(threshold: nat, timeout: nat) -> BreakerModel {
        BreakerModel { failures: 0, threshold, timeout, state: CircuitState::Closed, last_failure: None }
    }

    /// An open breaker knows when it last failed.
    pub open spec fn wf(self) -> bool {
        self.state is Open ==> self.last_failure is Some
    }

    /// How long ago the last failure was; nothing, where the clock shows less
    /// than it did then.
    pub open spec fn elapsed(self, now: nat) -> nat
        recommends
            self.last_failure is Some,
    {
        let then = self.last_failure->0;
        if now >= then {
            (now - then) as nat
        } else {
            0
        }
    }

    /// Whether the pause since the last failure is over.
    pub open spec fn recovered(self, now: nat) -> bool {
        self.last_failure is Some && self.elapsed(now) >= self.timeout
    }

    /// Whether a call is let through at `now`.
    pub open spec fn allows(self, now: nat) -> bool {
        match self.state {
            CircuitState::Closed => true,
            CircuitState::Open => self.recovered(now),
            CircuitState::HalfOpen => true,
        }
    }

    /// The breaker after it was asked at `now`: an open one whose pause is
    /// over goes half open, any other stays as it is.
    pub open spec fn after_allow(self, now: nat) -> BreakerModel {
        if self.state is Open && self.recovered(now) {
            BreakerModel { state: CircuitState::HalfOpen, ..self }
        } else {
            self
        }
    }

    /// The breaker after a success.
    pub open spec fn after_success(self) -> BreakerModel {
        BreakerModel { failures: 0, state: CircuitState::Closed, ..self }
    }

    /// The breaker after a failure at `now`.
    pub open spec fn after_failure(self, now: nat) -> BreakerModel {
        BreakerModel {
            failures: self.failures + 1,
            last_failure: Some(now),
            state: if self.failures + 1 >= self.threshold {
                CircuitState::Open
            } else {
                self.state
            },
            ..self
        }
    }

    /// The breaker after one failure at each of `times`, in that order.
    pub open spec fn after_failures(self, times: Seq<nat>) -> BreakerModel
        decreases times.len(),
    {
        if times.len() == 0 {
            self
        } else {
            self.after_failures(times.drop_last()).after_failure(times.last())
        }
    }
}

/// A circuit breaker.
pub struct CircuitBreaker {
    failure_count: u32,
    threshold: u32,
    timeout: u64,
    state: CircuitState,
    last_failure_time: Option<u64>,
}

impl View for CircuitBreaker {
    type V = BreakerModel;

    closed spec fn view(&self) -> BreakerModel {
        BreakerModel {
            failures: self.failure_count as nat,
            threshold: self.threshold as nat,
            timeout: self.timeout as nat,
            state: self.state,
            last_failure: match self.last_failure_time {
                Some(t) => Some(t as nat),
                None => None,
            },
        }
    }
}

impl CircuitBreaker {
    #[verifier::type_invariant]
    spec fn inv(self) -> bool {
        self.state is Open ==> self.last_failure_time is Some
    }

    /// A closed breaker that opens after `threshold` failures in a row and
    /// then holds calls back for `timeout`.
    pub fn new(threshold: u32, timeout: u64) -> (b: CircuitBreaker)
        ensures
            b@ == BreakerModel::fresh(threshold as nat, timeout as nat),
            b@.wf(),
    {
        CircuitBreaker {
            failure_count: 0,
            threshold,
            timeout,
            state: CircuitState::Closed,
            last_failure_time: None,
        }
    }

    /// Whether a call may be made at `now`. An open breaker whose pause is
    /// over goes half open.
    pub fn allow_request(&mut self, now: u64) -> (allowed: bool)
        ensures
            allowed == old(self)@.allows(now as nat),
            final(self)@ == old(self)@.after_allow(now as nat),
            final(self)@.wf(),
    {
        proof {
            use_type_invariant(&*self);
        }
        match self.state {
            CircuitState::Closed => true,
            CircuitState::Open => {
                match self.last_failure_time {
                    Some(then) => {
                        let elapsed: u64 = if now >= then {
                            now - then
                        } else {
                            0
                        };
                        if elapsed >= self.timeout {
                            self.state = CircuitState::HalfOpen;
                            true
                        } else {
                            false
                        }
                    },
                    None => false,
                }
            },
            CircuitState::HalfOpen => true,
        }
    }

    /// Records a success: the count of failures starts again, and the
    /// breaker closes.
    pub fn record_success(&mut self)
        ensures
            final(self)@ == old(self)@.after_success(),
            final(self)@.wf(),
    {
        proof {
            use_type_invariant(&*self);
        }
        self.failure_count = 0;
        self.state = CircuitState::Closed;
    }

    /// Records a failure at `now`. The breaker opens where the count of
    /// failures has reached the threshold.
    pub fn record_failure(&mut self, now: u64)
        requires
            old(self)@.failures < u32::MAX,
        ensures
            final(self)@ == old(self)@.after_failure(now as nat),
            final(self)@.wf(),
    {
        proof {
            use_type_invariant(&*self);
        }
        let count: u32 = self.failure_count + 1;
        self.failure_count = count;
        self.last_failure_time = Some(now);
        if count >= self.threshold {
            self.state = CircuitState::Open;
        }
    }

    /// Where the breaker stands.
    pub fn state(&self) -> (s: CircuitState)
        ensures
            s == self@.state,
            self@.wf(),
    {
        proof {
            use_type_invariant(self);
        }
        self.state
    }

    /// Failures since the last success.
    pub fn failure_count(&self) -> (n: u32)
        ensures
            n == self@.failures,
    {
        self.failure_count
    }
}

/// Failures in a row open the breaker: once their count has reached the
/// threshold, the breaker is open after each further failure, whatever state
/// it was in and whenever the failures came.
pub proof fn law_failures_open(b: BreakerModel, times: Seq<nat>)
    requires
        times.len() >= 1,
        b.failures + times.len() >= b.threshold,
    ensures
        b.after_failures(times).state is Open,
        b.after_failures(times).failures == b.failures + times.len(),
        b.after_failures(times).threshold == b.threshold,
{
    lemma_failures_count(b, times.drop_last());
}

/// Failures are counted one by one, and the threshold stays.
pub proof fn lemma_failures_count(b: BreakerModel, times: Seq<nat>)
    ensures
        b.after_failures(times).failures == b.failures + times.len(),
        b.after_failures(times).threshold == b.threshold,
        b.after_failures(times).timeout == b.timeout,
    decreases times.len(),
{
    if times.len() > 0 {
        lemma_failures_count(b, times.drop_last());
    }
}

/// A fresh breaker with a threshold of one or more is open after exactly
/// that many failures, and not before.
pub proof fn law_threshold_reached(threshold: nat, timeout: nat, times: Seq<nat>)
    requires
        threshold >= 1,
        times.len() <= threshold,
    ensures
        BreakerModel::fresh(threshold, timeout).after_failures(times).state is Open
            <==> times.len() == threshold,
    decreases times.len(),
{
    let b = BreakerModel::fresh(threshold, timeout);
    lemma_failures_count(b, times);
    if times.len() > 0 {
        law_threshold_reached(threshold, timeout, times.drop_last());
        lemma_failures_count(b, times.drop_last());
    }
}

/// An open breaker whose pause is over lets the next call through and goes
/// half open; a success after that closes it and clears the count.
pub proof fn law_recovery(b: BreakerModel, now: nat)
    requires
        b.wf(),
        b.state is Open,
        b.elapsed(now) >= b.timeout,
    ensures
        b.allows(now),
        b.after_allow(now).state is HalfOpen,
        b.after_allow(now).after_success().state is Closed,
        b.after_allow(now).after_success().failures == 0,
{
}

/// An open breaker whose pause is not over holds the call back and stays open.
pub proof fn law_open_holds(b: BreakerModel, now: nat)
    requires
        b.state is Open,
        !b.recovered(now),
    ensures
        !b.allows(now),
        b.after_allow(now) == b,
{
}

} // verus!
