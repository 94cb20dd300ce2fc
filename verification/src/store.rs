//! The ping store: a bounded, most-recent-first history of liveness
//! reports, mutated only by insertion with capacity eviction.

use std::collections::VecDeque;

use vstd::prelude::*;

use crate::clock::{now_millis, valid_time, TIME_BOUND_MILLIS};

verus! {

/// Most pings the history keeps.
pub const PING_COUNT: usize = 8;

/// One liveness report: the caller's free-text reason and the instant of
/// arrival, in milliseconds since the Unix epoch.
pub struct CanaryPing {
    pub reason: String,
    pub time_millis: i64,
}

/// The mathematical content of one ping.
pub ghost struct PingModel {
    pub reason: Seq<char>,
    pub time: int,
}

impl View for CanaryPing {
    type V = PingModel;

    open spec fn view(&self) -> PingModel {
        PingModel { reason: self.reason@, time: self.time_millis as int }
    }
}

impl Clone for CanaryPing {
    fn clone(&self) -> (r: Self)
        ensures
            r@ == self@,
    {
        CanaryPing { reason: self.reason.clone(), time_millis: self.time_millis }
    }
}

/// The history after a new event is pushed in front and the oldest entries
/// beyond capacity are dropped.
pub open spec fn recorded(h: Seq<PingModel>, e: PingModel) -> Seq<PingModel> {
    (seq![e] + h).take(vstd::math::min(h.len() as int + 1, PING_COUNT as int))
}

/// The rolling ping history, most recent first.
pub struct CanaryState {
    pub pings: VecDeque<CanaryPing>,
}

impl View for CanaryState {
    type V = Seq<PingModel>;

    open spec fn view(&self) -> Seq<PingModel> {
        Seq::new(self.pings@.len(), |i: int| self.pings@[i]@)
    }
}

impl Default for CanaryState {
    /// An empty history.
    fn default() -> (r: Self)
        ensures
            r@ == Seq::<PingModel>::empty(),
            r.wf(),
    {
        CanaryState { pings: VecDeque::with_capacity(PING_COUNT) }
    }
}

impl CanaryState {
    /// Well-formed: within capacity, and every timestamp within the clock's
    /// range.
    pub open spec fn wf(&self) -> bool {
        &&& self@.len() <= PING_COUNT
        &&& forall|i: int| 0 <= i < self@.len() ==> valid_time(self@[i].time)
    }

    /// Whether the history is well-formed; what `wf` says, decided at run
    /// time.
    pub fn is_wf(&self) -> (b: bool)
        ensures
            b == self.wf(),
    {
        if self.pings.len() > PING_COUNT {
            return false;
        }
        let mut idx: usize = 0;
        while idx < self.pings.len()
            invariant
                idx <= self.pings@.len(),
                self.pings@.len() <= PING_COUNT,
                forall|i: int| 0 <= i < idx ==> valid_time(self@[i].time),
            decreases self.pings@.len() - idx,
        {
            let t = self.pings[idx].time_millis;
            if t < -TIME_BOUND_MILLIS || t > TIME_BOUND_MILLIS {
                proof {
                    assert(self@[idx as int].time == t as int);
                    assert(!valid_time(self@[idx as int].time));
                }
                return false;
            }
            idx += 1;
        }
        true
    }

    /// Number of pings currently held.
    pub fn len(&self) -> (n: usize)
        ensures
            n == self@.len(),
    {
        self.pings.len()
    }

    /// Insert a ping with the given reason at the given instant; then drop
    /// the oldest entries until the history is back within capacity.
    pub fn record_at(&mut self, reason: String, time_millis: i64)
        requires
            valid_time(time_millis as int),
        ensures
            final(self)@ == recorded(
                old(self)@,
                PingModel { reason: reason@, time: time_millis as int },
            ),
            old(self).wf() ==> final(self).wf(),
    {
        self.pings.push_front(CanaryPing { reason, time_millis });
        self.pings.truncate(PING_COUNT);
        proof {
            let e = PingModel { reason: reason@, time: time_millis as int };
            assert(self@ =~= recorded(old(self)@, e));
        }
    }

    /// Insert a ping with the given reason, stamped with the current time.
    pub fn record(&mut self, reason: String)
        ensures
            exists|t: int|
                valid_time(t) && final(self)@ == recorded(
                    old(self)@,
                    PingModel { reason: reason@, time: t },
                ),
            final(self)@.len() == vstd::math::min(old(self)@.len() as int + 1, PING_COUNT as int),
            old(self).wf() ==> final(self).wf(),
    {
        let t = now_millis();
        self.record_at(reason, t);
        proof {
            assert(valid_time(t as int) && self@ == recorded(
                old(self)@,
                PingModel { reason: reason@, time: t as int },
            ));
        }
    }

    /// The current history, most recent first. The store itself is only
    /// read: the receiver is a shared reference, so no call can change it.
    pub fn snapshot(&self) -> (r: Vec<CanaryPing>)
        ensures
            r@.len() == self@.len(),
            forall|i: int| 0 <= i < r@.len() ==> r@[i]@ == self@[i],
    {
        let mut out: Vec<CanaryPing> = Vec::new();
        let mut idx: usize = 0;
        while idx < self.pings.len()
            invariant
                idx <= self.pings@.len(),
                out@.len() == idx,
                forall|i: int| 0 <= i < idx ==> out@[i]@ == self@[i],
            decreases self.pings@.len() - idx,
        {
            out.push(self.pings[idx].clone());
            idx += 1;
        }
        out
    }
}

/// Capacity: recording never grows the history beyond `PING_COUNT`; a full
/// history stays exactly full, and a history below capacity grows by one.
pub proof fn lemma_capacity(h: Seq<PingModel>, e: PingModel)
    ensures
        recorded(h, e).len() <= PING_COUNT as int,
        h.len() >= PING_COUNT ==> recorded(h, e).len() == PING_COUNT as int,
        h.len() < PING_COUNT ==> recorded(h, e).len() == h.len() + 1,
{
}

/// Ordering: the new event stands at the front, and every surviving earlier
/// event keeps its place relative to the others, shifted back by one.
pub proof fn lemma_ordering(h: Seq<PingModel>, e: PingModel)
    ensures
        recorded(h, e).len() >= 1,
        recorded(h, e)[0] == e,
        forall|i: int| 0 <= i && i + 1 < recorded(h, e).len() ==> recorded(h, e)[i + 1] == h[i],
{
}

/// Ordering of two insertions: after recording `a` and then `b`, `b` is
/// first and `a` stands right behind it.
pub proof fn lemma_two_records(h: Seq<PingModel>, a: PingModel, b: PingModel)
    ensures
        recorded(recorded(h, a), b)[0] == b,
        recorded(recorded(h, a), b)[1] == a,
{
}

/// The history after a whole sequence of events is recorded, one after the
/// other, first element first.
pub open spec fn recorded_all(h: Seq<PingModel>, es: Seq<PingModel>) -> Seq<PingModel>
    decreases es.len(),
{
    if es.len() == 0 {
        h
    } else {
        recorded_all(recorded(h, es[0]), es.drop_first())
    }
}

/// Capacity over any sequence of recordings: the history never exceeds
/// `PING_COUNT`, and once enough events have gone in it holds exactly
/// `PING_COUNT`.
pub proof fn lemma_capacity_all(h: Seq<PingModel>, es: Seq<PingModel>)
    requires
        h.len() <= PING_COUNT,
    ensures
        recorded_all(h, es).len() <= PING_COUNT,
        h.len() + es.len() >= PING_COUNT ==> recorded_all(h, es).len() == PING_COUNT,
        h.len() + es.len() < PING_COUNT ==> recorded_all(h, es).len() == h.len() + es.len(),
    decreases es.len(),
{
    if es.len() > 0 {
        lemma_capacity(h, es[0]);
        lemma_capacity_all(recorded(h, es[0]), es.drop_first());
    }
}

/// Survival: an event keeps its place in the history, moved back one
/// position per later recording, until capacity pushes it out.
pub proof fn lemma_survival(h: Seq<PingModel>, es: Seq<PingModel>, i: int)
    requires
        0 <= i < h.len(),
        h.len() <= PING_COUNT,
        i + es.len() < PING_COUNT,
    ensures
        recorded_all(h, es).len() > i + es.len(),
        recorded_all(h, es)[i + es.len()] == h[i],
    decreases es.len(),
{
    if es.len() > 0 {
        lemma_ordering(h, es[0]);
        lemma_capacity(h, es[0]);
        lemma_survival(recorded(h, es[0]), es.drop_first(), i + 1);
    }
}

/// Eviction: recording into a full history drops exactly the oldest (last)
/// event and keeps all the newer ones, behind the new event.
pub proof fn lemma_eviction(h: Seq<PingModel>, e: PingModel)
    requires
        h.len() == PING_COUNT,
    ensures
        recorded(h, e) == seq![e] + h.take(PING_COUNT as int - 1),
{
    assert(recorded(h, e) =~= seq![e] + h.take(PING_COUNT as int - 1));
}

} // verus!
