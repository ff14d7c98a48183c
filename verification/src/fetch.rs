//! Single-flight request/response tracking for one resource.
//!
//! Overlapping flights for the same resource are ranked by `staged`: each
//! start of a flight bumps it. Every arriving result bumps `received`, and
//! a result is surfaced only when `received` has caught up with `staged` —
//! a result overtaken by a fresher flight is counted and silently dropped.
//! A superseded flight is not stopped; only which result is later accepted
//! changes.

use vstd::prelude::*;
use std::sync::Arc;
use std::sync::mpsc;
use std::sync::mpsc::{Receiver, Sender};

verus! {

#[verifier::external_type_specification]
#[verifier::external_body]
#[verifier::reject_recursive_types(T)]
pub struct ExSender<T>(Sender<T>);

#[verifier::external_type_specification]
#[verifier::external_body]
#[verifier::reject_recursive_types(T)]
pub struct ExReceiver<T>(Receiver<T>);

/// Relies on std::sync::mpsc::channel: a fresh asynchronous channel pair;
/// values sent on the sender become available to the receiver in send
/// order.
#[verifier::external_body]
fn channel_endpoints<T>() -> (Sender<T>, Receiver<T>) {
    mpsc::channel()
}

/// Relies on std::sync::mpsc::Receiver::try_recv: hands out a waiting value
/// without blocking, or nothing. Whether a value waits, and which, depends
/// on what other threads have sent, so nothing more can be promised.
#[verifier::external_body]
fn try_recv_pending<T>(receiver: &Receiver<T>) -> Option<T> {
    receiver.try_recv().ok()
}

/// Relies on Arc::clone: a new handle to the same sender.
#[verifier::external_body]
fn clone_sender<T>(sender: &Arc<Sender<T>>) -> (r: Arc<Sender<T>>)
    ensures
        r == *sender,
{
    sender.clone()
}

/// The coordinator's bookkeeping state, free of the channel endpoints.
pub struct FetchView {
    pub staged: nat,
    pub received: nat,
    pub requested: bool,
    pub in_progress: bool,
}

/// The per-resource coordinator: intent and flight flags, flight and result
/// counters, and the completion channel the flights report on.
#[verifier::reject_recursive_types(T)]
pub struct Fetch<T> {
    pub staged: usize,
    pub received: usize,
    pub in_progress: bool,
    pub requested: bool,
    pub sender: Arc<Sender<T>>,
    pub receiver: Receiver<T>,
}

impl<T> View for Fetch<T> {
    type V = FetchView;

    open spec fn view(&self) -> FetchView {
        FetchView {
            staged: self.staged as nat,
            received: self.received as nat,
            requested: self.requested,
            in_progress: self.in_progress,
        }
    }
}

/// State after `request`: intent is set, and any in-flight tracking for the
/// previous flight is invalidated.
pub open spec fn requested_fetch(f: FetchView) -> FetchView {
    FetchView { requested: true, in_progress: false, ..f }
}

/// State after `start`, and whether work should be launched: a pending
/// request stages one more flight and moves to in-progress; without one,
/// nothing changes and nothing is launched.
pub open spec fn started_fetch(f: FetchView) -> (FetchView, bool) {
    if f.requested {
        (FetchView { staged: f.staged + 1, requested: false, in_progress: true, ..f }, true)
    } else {
        (f, false)
    }
}

/// State after one result arrives, and whether it is surfaced: the arrival
/// is counted, and the result is surfaced only if it belongs to the most
/// recently staged flight — that is, once `received` has caught up with
/// `staged`.
pub open spec fn accepted_fetch(f: FetchView) -> (FetchView, bool) {
    let counted = FetchView { received: f.received + 1, ..f };
    if counted.staged > counted.received {
        (counted, false)
    } else {
        (FetchView { in_progress: false, ..counted }, true)
    }
}

impl<T> Fetch<T> {
    pub fn new() -> (r: Self)
        ensures
            r@ == (FetchView { staged: 0nat, received: 0nat, requested: false, in_progress: false }),
    {
        let (sender, receiver) = channel_endpoints();
        Self {
            staged: 0,
            received: 0,
            in_progress: false,
            requested: false,
            sender: Arc::new(sender),
            receiver,
        }
    }

    /// Consumer side: if a request is pending, stages a fresh flight and
    /// reports that the caller should launch the work; otherwise reports
    /// that no relaunch is due.
    pub fn start(&mut self) -> (r: bool)
        requires
            old(self).staged < usize::MAX,
        ensures
            final(self)@ == started_fetch(old(self)@).0,
            r == started_fetch(old(self)@).1,
            final(self).sender == old(self).sender,
            final(self).receiver == old(self).receiver,
    {
        if self.requested {
            self.staged += 1;
            self.requested = false;
            self.in_progress = true;
            return true;
        }
        false
    }

    /// Producer side: records the intent to fetch; a fresh request
    /// invalidates the in-flight tracking of the previous flight (the
    /// flight itself keeps running, but its result will be discarded).
    pub fn request(&mut self)
        ensures
            final(self)@ == requested_fetch(old(self)@),
            final(self).sender == old(self).sender,
            final(self).receiver == old(self).receiver,
    {
        self.requested = true;
        self.in_progress = false;
    }

    pub fn is_requested(&self) -> (r: bool)
        ensures
            r == self@.requested,
    {
        self.requested
    }

    pub fn is_in_progress(&self) -> (r: bool)
        ensures
            r == self@.in_progress,
    {
        self.in_progress
    }

    /// Books one arrived result: counts it, surfaces it only if no fresher
    /// flight has been staged since, and otherwise discards it.
    pub fn accept(&mut self, value: T) -> (r: Option<T>)
        requires
            old(self).received < usize::MAX,
            !old(self)@.requested,
            old(self)@.in_progress,
        ensures
            final(self)@ == accepted_fetch(old(self)@).0,
            r == (if accepted_fetch(old(self)@).1 {
                Some(value)
            } else {
                None::<T>
            }),
            final(self).sender == old(self).sender,
            final(self).receiver == old(self).receiver,
    {
        self.received += 1;
        if self.staged > self.received {
            return None;
        }
        self.in_progress = false;
        Some(value)
    }

    /// Non-blocking: takes at most one waiting result from the completion
    /// channel and books it with `accept`. With a pending request, or with
    /// no flight in progress, nothing is consumed and nothing is surfaced.
    pub fn receive(&mut self) -> (r: Option<T>)
        requires
            old(self).received < usize::MAX,
        ensures
            ({
                let f0 = old(self)@;
                if f0.requested || !f0.in_progress {
                    r is None && final(self)@ == f0
                } else {
                    (r is None && final(self)@ == f0) || (final(self)@ == accepted_fetch(f0).0
                        && (r is Some <==> accepted_fetch(f0).1))
                }
            }),
            final(self).sender == old(self).sender,
            final(self).receiver == old(self).receiver,
    {
        if self.requested || !self.in_progress {
            return None;
        }
        match try_recv_pending(&self.receiver) {
            Some(value) => self.accept(value),
            None => None,
        }
    }

    /// A handle for a flight to report its result on.
    pub fn sender(&self) -> (r: Arc<Sender<T>>)
        ensures
            r == self.sender,
    {
        clone_sender(&self.sender)
    }
}

/// Single-flight law: with no outstanding results, request a fetch and
/// start it (flight one), then request again before any result arrives and
/// start again (flight two). Both starts launch work, and both arrivals
/// reach the booking step (no pending request, a flight in progress). Of
/// the two results that then arrive, the first is discarded and the second
/// is surfaced: exactly one is surfaced. Flights report in completion
/// order, so when flight one finishes first, the surfaced result is flight
/// two's.
pub proof fn lemma_single_flight(f0: FetchView)
    requires
        f0.staged == f0.received,
        !f0.requested,
    ensures
        ({
            let f1 = requested_fetch(f0);
            let (f2, started1) = started_fetch(f1);
            let f3 = requested_fetch(f2);
            let (f4, started2) = started_fetch(f3);
            let (f5, surfaced1) = accepted_fetch(f4);
            let (f6, surfaced2) = accepted_fetch(f5);
            started1 && started2 && (!f4.requested && f4.in_progress) && (!f5.requested
                && f5.in_progress) && !surfaced1 && surfaced2 && f6.staged == f6.received
        }),
{
}

/// State after `k` more request/start rounds on top of `f`: each round
/// records the intent and stages the flight.
pub open spec fn overlapped_fetch(f: FetchView, k: nat) -> FetchView
    decreases k,
{
    if k == 0 {
        f
    } else {
        started_fetch(requested_fetch(overlapped_fetch(f, (k - 1) as nat))).0
    }
}

/// State after the first `j` arrivals have been booked.
pub open spec fn drained_fetch(f: FetchView, j: nat) -> FetchView
    decreases j,
{
    if j == 0 {
        f
    } else {
        accepted_fetch(drained_fetch(f, (j - 1) as nat)).0
    }
}

proof fn lemma_overlapped_counters(f: FetchView, k: nat)
    ensures
        overlapped_fetch(f, k).staged == f.staged + k,
        overlapped_fetch(f, k).received == f.received,
        k >= 1 ==> !overlapped_fetch(f, k).requested && overlapped_fetch(f, k).in_progress,
    decreases k,
{
    if k > 0 {
        lemma_overlapped_counters(f, (k - 1) as nat);
    }
}

proof fn lemma_drained_counters(f: FetchView, j: nat)
    requires
        f.received + j <= f.staged,
    ensures
        drained_fetch(f, j).staged == f.staged,
        drained_fetch(f, j).received == f.received + j,
        drained_fetch(f, j).requested == f.requested,
        f.received + j < f.staged ==> drained_fetch(f, j).in_progress == f.in_progress,
    decreases j,
{
    if j > 0 {
        lemma_drained_counters(f, (j - 1) as nat);
    }
}

/// Last-started wins, for any number of overlapping flights: stage `k`
/// flights (request then start, `k` times) on an idle coordinator, then
/// let their `k` results arrive one by one. Every arrival reaches the
/// booking step, and the `j`-th arrival is surfaced exactly when it is the
/// last one — the `k - 1` earlier arrivals are silently dropped.
pub proof fn lemma_last_started_wins(f0: FetchView, k: nat, j: nat)
    requires
        f0.staged == f0.received,
        !f0.requested,
        1 <= j <= k,
    ensures
        ({
            let before_jth = drained_fetch(overlapped_fetch(f0, k), (j - 1) as nat);
            !before_jth.requested && before_jth.in_progress && (accepted_fetch(before_jth).1 <==> j
                == k)
        }),
{
    lemma_overlapped_counters(f0, k);
    lemma_drained_counters(overlapped_fetch(f0, k), (j - 1) as nat);
}

} // verus!
