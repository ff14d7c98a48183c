//! Fixed-period rate limiter driving the worker loop.
//!
//! Times are whole milliseconds of the monotonic clock, measured from the
//! ticker's construction. The decision of when a tick is due is ordinary
//! verified code over those readings; only reading the clock — and, for a
//! blocking tick, sleeping to the period boundary — is left to the caller's
//! side.

use vstd::prelude::*;
use std::time::Instant;
use vstd::arithmetic::div_mod::{lemma_div_is_ordered, lemma_div_multiples_vanish};

verus! {

#[verifier::external_type_specification]
#[verifier::external_body]
pub struct ExInstant(Instant);

/// Relies on std::time::Instant::now: a reading of the monotonic clock.
#[verifier::external_body]
fn instant_now() -> Instant {
    Instant::now()
}

/// Relies on std::time::Instant::elapsed: whole milliseconds of the
/// monotonic clock since `earlier`, saturating far beyond any process
/// lifetime. What the clock reads cannot be promised.
#[verifier::external_body]
fn millis_since(earlier: &Instant) -> u64 {
    let millis = earlier.elapsed().as_millis();
    if millis > u64::MAX as u128 {
        u64::MAX
    } else {
        millis as u64
    }
}

/// The ticker's bookkeeping: period, baseline of the last counted tick,
/// and how many ticks have been counted — all in milliseconds since the
/// ticker's epoch.
pub struct TickerView {
    pub period: nat,
    pub last_tick: nat,
    pub ticked: nat,
}

/// Decision of `poll` at clock reading `now`: the period has fully elapsed
/// exactly when `now` is at least one period past the baseline; then the
/// baseline resets to `now` and the tick is counted, else nothing changes.
pub open spec fn polled_ticker(f: TickerView, now: nat) -> (TickerView, bool) {
    if now >= f.last_tick + f.period {
        (TickerView { last_tick: now, ticked: f.ticked + 1, ..f }, true)
    } else {
        (f, false)
    }
}

/// Decision of a blocking tick at clock reading `now`: the moment the tick
/// completes — `now` itself if a full period has already elapsed, else the
/// period boundary one period past the baseline. That moment becomes the
/// new baseline, so consecutive completions are at least one period apart;
/// there is no compensation for overruns.
pub open spec fn ticked_ticker(f: TickerView, now: nat) -> (TickerView, nat) {
    let target = if now >= f.last_tick + f.period {
        now
    } else {
        f.last_tick + f.period
    };
    (TickerView { last_tick: target, ticked: f.ticked + 1, ..f }, target)
}

/// One observable step of a ticker: either a declined poll that leaves it
/// unchanged, or a counted tick that advances the baseline by at least one
/// period.
pub open spec fn ticker_step(pre: TickerView, post: TickerView) -> bool {
    post.period == pre.period && ((post.ticked == pre.ticked && post.last_tick == pre.last_tick)
        || (post.ticked == pre.ticked + 1 && post.last_tick >= pre.last_tick + pre.period))
}

pub struct Ticker {
    pub period: u64,
    pub last_tick: u64,
    pub ticked: usize,
    pub epoch: Instant,
}

impl View for Ticker {
    type V = TickerView;

    open spec fn view(&self) -> TickerView {
        TickerView {
            period: self.period as nat,
            last_tick: self.last_tick as nat,
            ticked: self.ticked as nat,
        }
    }
}

impl Ticker {
    /// A ticker whose baseline is the moment of construction.
    pub fn new(period_ms: u64) -> (r: Self)
        ensures
            r@ == (TickerView { period: period_ms as nat, last_tick: 0nat, ticked: 0nat }),
    {
        Self { period: period_ms, last_tick: 0, ticked: 0, epoch: instant_now() }
    }

    /// The poll decision at clock reading `now` (milliseconds since the
    /// ticker's epoch).
    pub fn poll_at(&mut self, now: u64) -> (r: bool)
        requires
            old(self)@.ticked < usize::MAX,
        ensures
            final(self)@ == polled_ticker(old(self)@, now as nat).0,
            r == polled_ticker(old(self)@, now as nat).1,
            ticker_step(old(self)@, final(self)@),
            final(self).epoch == old(self).epoch,
    {
        if now >= self.last_tick && now - self.last_tick >= self.period {
            self.last_tick = now;
            self.ticked += 1;
            return true;
        }
        false
    }

    /// Non-blocking: returns true and resets the baseline only if the
    /// period has fully elapsed, else returns false with no side effect —
    /// for callers that must interleave other work while waiting.
    pub fn poll(&mut self) -> (r: bool)
        requires
            old(self)@.ticked < usize::MAX,
        ensures
            r ==> final(self)@.ticked == old(self)@.ticked + 1 && final(self)@.last_tick >= old(
                self,
            )@.last_tick + old(self)@.period,
            !r ==> final(self)@ == old(self)@,
            ticker_step(old(self)@, final(self)@),
            final(self).epoch == old(self).epoch,
    {
        let now = millis_since(&self.epoch);
        self.poll_at(now)
    }

    /// The blocking-tick decision at clock reading `now`: counts the tick
    /// and returns the moment it completes, which the caller sleeps to if
    /// it lies ahead of `now`.
    pub fn tick_at(&mut self, now: u64) -> (target: u64)
        requires
            old(self)@.ticked < usize::MAX,
            old(self)@.last_tick + old(self)@.period <= u64::MAX,
        ensures
            final(self)@ == ticked_ticker(old(self)@, now as nat).0,
            target as nat == ticked_ticker(old(self)@, now as nat).1,
            ticker_step(old(self)@, final(self)@),
            final(self).epoch == old(self).epoch,
    {
        let target = if now >= self.last_tick && now - self.last_tick >= self.period {
            now
        } else {
            self.last_tick + self.period
        };
        self.last_tick = target;
        self.ticked += 1;
        target
    }
}

proof fn lemma_tick_progress(states: Seq<TickerView>)
    requires
        states.len() >= 1,
        forall|i: int| 0 <= i < states.len() - 1 ==> ticker_step(#[trigger] states[i], states[i + 1]),
    ensures
        states.last().period == states[0].period,
        states[0].ticked <= states.last().ticked,
        states[0].last_tick <= states.last().last_tick,
        (states.last().ticked - states[0].ticked) * states[0].period <= states.last().last_tick
            - states[0].last_tick,
    decreases states.len(),
{
    if states.len() > 1 {
        let prefix = states.drop_last();
        assert(forall|i: int|
            0 <= i < prefix.len() - 1 ==> ticker_step(#[trigger] prefix[i], prefix[i + 1]));
        lemma_tick_progress(prefix);
        assert(ticker_step(states[states.len() - 2], states.last()));
        let p = states[0].period as int;
        let k = prefix.last().ticked - states[0].ticked;
        assert((k + 1) * p == k * p + p) by (nonlinear_arith);
    }
}

/// Rate law: across any run of polls and ticks, a ticker with period P
/// whose baseline advanced by at most D milliseconds counted at most
/// D / P ticks. Tick completions reset the baseline to the moment they
/// happen, so at most floor(D / P) + 1 completions (the one that opens the
/// window and D / P more) fall within any wall-clock window of length D.
pub proof fn lemma_tick_rate_bound(states: Seq<TickerView>, duration: nat)
    requires
        states.len() >= 1,
        states[0].period > 0,
        forall|i: int| 0 <= i < states.len() - 1 ==> ticker_step(#[trigger] states[i], states[i + 1]),
        states.last().last_tick <= states[0].last_tick + duration,
    ensures
        states.last().ticked <= states[0].ticked + duration / states[0].period,
{
    lemma_tick_progress(states);
    let p = states[0].period as int;
    let k = states.last().ticked - states[0].ticked;
    assert(k * p <= duration);
    assert(p * k == k * p) by (nonlinear_arith);
    lemma_div_multiples_vanish(k, p);
    lemma_div_is_ordered(p * k, duration as int, p);
}

} // verus!
