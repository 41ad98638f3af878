//! A table of waiters, each keyed by the message whose next update it
//! waits for, each with a deadline.

use vstd::prelude::*;
use vstd::string::*;
use crate::text::str_eq;

verus! {

/// How long a waiter waits where nothing else is asked for, in
/// milliseconds.
pub const DEFAULT_TIMEOUT_MS: u64 = 10_000;

/// One registered interest in the next update of a message.
#[derive(Debug)]
pub struct PendingCorrelation {
    /// The slot the update is delivered to.
    pub waiter: u64,
    pub message_id: String,
    /// The time from which on the waiter has timed out.
    pub deadline: u64,
}

/// A waiter as the contracts see it.
pub struct PendingView {
    pub waiter: u64,
    pub message_id: Seq<char>,
    pub deadline: u64,
}

impl View for PendingCorrelation {
    type V = PendingView;

    open spec fn view(&self) -> PendingView {
        PendingView { waiter: self.waiter, message_id: self.message_id@, deadline: self.deadline }
    }
}

/// The update of `message_id` that arrives at `now` is for this waiter.
pub open spec fn is_delivered(p: PendingView, message_id: Seq<char>, now: u64) -> bool {
    p.message_id == message_id && now < p.deadline
}

/// The waiter has run out of time at `now`.
pub open spec fn is_expired(p: PendingView, now: u64) -> bool {
    p.deadline <= now
}

/// The test that picks the waiters an update of `message_id` at `now`
/// is delivered to.
pub open spec fn delivered_to(message_id: Seq<char>, now: u64) -> spec_fn(PendingView) -> bool {
    |p: PendingView| is_delivered(p, message_id, now)
}

/// The test that picks the waiters such an update leaves in the table.
pub open spec fn passed_over(message_id: Seq<char>, now: u64) -> spec_fn(PendingView) -> bool {
    |p: PendingView| !is_delivered(p, message_id, now)
}

/// The test that picks the waiters whose time has run out at `now`.
pub open spec fn expired_at(now: u64) -> spec_fn(PendingView) -> bool {
    |p: PendingView| is_expired(p, now)
}

/// The test that picks the waiters who still have time at `now`.
pub open spec fn alive_at(now: u64) -> spec_fn(PendingView) -> bool {
    |p: PendingView| !is_expired(p, now)
}

/// The slots of a list of waiters, in its order.
pub open spec fn waiters_of(pending: Seq<PendingView>) -> Seq<u64> {
    pending.map_values(|p: PendingView| p.waiter)
}

/// A list of waiters as the contracts see it.
pub open spec fn views_of(pending: Seq<PendingCorrelation>) -> Seq<PendingView> {
    pending.map_values(|p: PendingCorrelation| p@)
}

/// The time a wait that starts at `now` ends, held within the clock's
/// range.
pub open spec fn deadline_of(now: u64, timeout_ms: u64) -> u64 {
    if now + timeout_ms > u64::MAX {
        u64::MAX
    } else {
        (now + timeout_ms) as u64
    }
}

/// Slots are told apart: no two waiters of the table share one.
pub open spec fn has_distinct_slots(table: Seq<PendingView>) -> bool {
    forall|i: int, j: int|
        0 <= i < j < table.len() ==> (#[trigger] table[i]).waiter != (#[trigger] table[j]).waiter
}

/// What registering a waiter comes to: the table hands out the next slot,
/// one that no waiter of a well-formed table holds, and holds the new
/// waiter last, with its deadline `timeout_ms` after `now`. It refuses
/// only once every slot number has been used, and is unchanged where it
/// refuses.
pub open spec fn is_registration(
    before: UpdateCorrelator,
    after: UpdateCorrelator,
    slot: Option<u64>,
    message_id: Seq<char>,
    now: u64,
    timeout_ms: u64,
) -> bool {
    &&& slot is Some <==> before.issued() < u64::MAX
    &&& slot is None ==> after@ == before@ && after.issued() == before.issued()
    &&& slot matches Some(waiter) ==> {
        &&& waiter == before.issued()
        &&& after.issued() == waiter + 1
        &&& before.well_formed() ==> !waiters_of(before@).contains(waiter)
        &&& after@ == before@.push(
            PendingView { waiter, message_id, deadline: deadline_of(now, timeout_ms) },
        )
    }
}

/// The table of waiters. Any number may wait at once, several for one
/// message too.
pub struct UpdateCorrelator {
    pending: Vec<PendingCorrelation>,
    issued: u64,
}

impl View for UpdateCorrelator {
    type V = Seq<PendingView>;

    closed spec fn view(&self) -> Seq<PendingView> {
        views_of(self.pending@)
    }
}

impl UpdateCorrelator {
    /// How many slots were handed out so far.
    pub closed spec fn issued(&self) -> u64 {
        self.issued
    }

    /// Every slot in the table was handed out, and none stands in it twice.
    /// A new table is so, and every function of the table keeps it so.
    pub open spec fn well_formed(&self) -> bool {
        &&& forall|i: int| 0 <= i < self@.len() ==> (#[trigger] self@[i]).waiter < self.issued()
        &&& has_distinct_slots(self@)
    }

    /// A table without waiters.
    pub fn new() -> (table: UpdateCorrelator)
        ensures
            table@.len() == 0,
            table.issued() == 0,
            table.well_formed(),
    {
        UpdateCorrelator { pending: Vec::new(), issued: 0 }
    }

    /// How many waiters are pending.
    pub fn len(&self) -> (n: usize)
        ensures
            n == self@.len(),
    {
        self.pending.len()
    }

    /// Whether the slot `waiter` still waits.
    pub fn is_pending(&self, waiter: u64) -> (yes: bool)
        ensures
            yes == waiters_of(self@).contains(waiter),
    {
        let mut i: usize = 0;
        while i < self.pending.len()
            invariant
                i <= self.pending@.len(),
                forall|k: int| 0 <= k < i ==> self@[k].waiter != waiter,
            decreases self.pending.len() - i,
        {
            if self.pending[i].waiter == waiter {
                assert(waiters_of(self@)[i as int] == waiter);
                return true;
            }
            i += 1;
        }
        false
    }

    /// Registers a waiter for the next update of `message_id`, to time out
    /// `timeout_ms` after `now`, and hands out its slot. The table refuses
    /// only when every slot number has been used.
    pub fn await_update(&mut self, message_id: &str, now: u64, timeout_ms: u64) -> (slot: Option<
        u64,
    >)
        ensures
            old(self).well_formed() ==> final(self).well_formed(),
            is_registration(*old(self), *final(self), slot, message_id@, now, timeout_ms),
    {
        if self.issued == u64::MAX {
            return None;
        }
        let waiter = self.issued;
        let deadline = if timeout_ms > u64::MAX - now {
            u64::MAX
        } else {
            now + timeout_ms
        };
        let entry = PendingCorrelation { waiter, message_id: message_id.to_owned(), deadline };
        proof {
            assert(views_of(self.pending@.push(entry)) =~= views_of(self.pending@).push(entry@));
        }
        self.pending.push(entry);
        self.issued = waiter + 1;
        Some(waiter)
    }

    /// Delivers the update of `message_id` that arrives at `now`: every
    /// waiter for that message whose time has not run out is resolved and
    /// leaves the table, in the order of registration. All others stay as
    /// they are. An update nobody waits for is dropped.
    pub fn publish(&mut self, message_id: &str, now: u64) -> (resolved: Vec<u64>)
        ensures
            old(self).well_formed() ==> final(self).well_formed(),
            final(self).issued() == old(self).issued(),
            resolved@ == waiters_of(old(self)@.filter(delivered_to(message_id@, now))),
            final(self)@ == old(self)@.filter(passed_over(message_id@, now)),
    {
        let mut kept: Vec<PendingCorrelation> = Vec::new();
        let mut resolved: Vec<u64> = Vec::new();
        let ghost before = self@;
        let mut i: usize = 0;
        proof {
            reveal(Seq::filter);
        }
        while i < self.pending.len()
            invariant
                i <= self.pending@.len(),
                before == views_of(self.pending@),
                views_of(kept@) == before.take(i as int).filter(passed_over(message_id@, now)),
                resolved@ == waiters_of(
                    before.take(i as int).filter(delivered_to(message_id@, now)),
                ),
            decreases self.pending.len() - i,
        {
            let entry = &self.pending[i];
            proof {
                assert(before.take(i + 1) =~= before.take(i as int).push(entry@));
                before.take(i as int).lemma_filter_push(entry@, passed_over(message_id@, now));
                before.take(i as int).lemma_filter_push(entry@, delivered_to(message_id@, now));
            }
            if str_eq(entry.message_id.as_str(), message_id) && now < entry.deadline {
                resolved.push(entry.waiter);
            } else {
                let copy = PendingCorrelation {
                    waiter: entry.waiter,
                    message_id: entry.message_id.clone(),
                    deadline: entry.deadline,
                };
                kept.push(copy);
            }
            i += 1;
        }
        proof {
            assert(before.take(i as int) =~= before);
            if old(self).well_formed() {
                lemma_filter_keeps_table(before, passed_over(message_id@, now), self.issued);
            }
        }
        self.pending = kept;
        resolved
    }

    /// Times out every waiter whose deadline has come at `now`: each leaves
    /// the table and is to resolve with a timeout, in the order of
    /// registration. The others stay as they are.
    pub fn expire(&mut self, now: u64) -> (timed_out: Vec<u64>)
        ensures
            old(self).well_formed() ==> final(self).well_formed(),
            final(self).issued() == old(self).issued(),
            timed_out@ == waiters_of(old(self)@.filter(expired_at(now))),
            final(self)@ == old(self)@.filter(alive_at(now)),
    {
        let mut kept: Vec<PendingCorrelation> = Vec::new();
        let mut timed_out: Vec<u64> = Vec::new();
        let ghost before = self@;
        let mut i: usize = 0;
        proof {
            reveal(Seq::filter);
        }
        while i < self.pending.len()
            invariant
                i <= self.pending@.len(),
                before == views_of(self.pending@),
                views_of(kept@) == before.take(i as int).filter(alive_at(now)),
                timed_out@ == waiters_of(before.take(i as int).filter(expired_at(now))),
            decreases self.pending.len() - i,
        {
            let entry = &self.pending[i];
            proof {
                assert(before.take(i + 1) =~= before.take(i as int).push(entry@));
                before.take(i as int).lemma_filter_push(entry@, alive_at(now));
                before.take(i as int).lemma_filter_push(entry@, expired_at(now));
            }
            if entry.deadline <= now {
                timed_out.push(entry.waiter);
            } else {
                let copy = PendingCorrelation {
                    waiter: entry.waiter,
                    message_id: entry.message_id.clone(),
                    deadline: entry.deadline,
                };
                kept.push(copy);
            }
            i += 1;
        }
        proof {
            assert(before.take(i as int) =~= before);
            if old(self).well_formed() {
                lemma_filter_keeps_table(before, alive_at(now), self.issued);
            }
        }
        self.pending = kept;
        timed_out
    }
}

/// An update for one message resolves no waiter for another message: such
/// a waiter stays in the table as it was, and its slot is not among the
/// resolved ones.
pub proof fn lemma_publish_spares_other_keys(
    table: Seq<PendingView>,
    message_id: Seq<char>,
    now: u64,
    other: PendingView,
)
    requires
        has_distinct_slots(table),
        table.contains(other),
        other.message_id != message_id,
    ensures
        table.filter(passed_over(message_id, now)).contains(other),
        !waiters_of(table.filter(delivered_to(message_id, now))).contains(other.waiter),
{
    let at = choose|i: int| 0 <= i < table.len() && table[i] == other;
    table.lemma_filter_contains(passed_over(message_id, now), at);
    let hits = table.filter(delivered_to(message_id, now));
    if waiters_of(hits).contains(other.waiter) {
        let k = choose|k: int| 0 <= k < hits.len() && waiters_of(hits)[k] == other.waiter;
        table.lemma_filter_pred(delivered_to(message_id, now), k);
        table.lemma_filter_contains_rev(delivered_to(message_id, now), hits[k]);
        let j = choose|j: int| 0 <= j < table.len() && table[j] == hits[k];
    }
}

/// An update for a message resolves every waiter for that message whose
/// time has not run out, and takes it out of the table.
pub proof fn lemma_publish_resolves_its_waiters(
    table: Seq<PendingView>,
    message_id: Seq<char>,
    now: u64,
    waiting: PendingView,
)
    requires
        table.contains(waiting),
        waiting.message_id == message_id,
        now < waiting.deadline,
    ensures
        waiters_of(table.filter(delivered_to(message_id, now))).contains(waiting.waiter),
        !table.filter(passed_over(message_id, now)).contains(waiting),
{
    let at = choose|i: int| 0 <= i < table.len() && table[i] == waiting;
    table.lemma_filter_contains(delivered_to(message_id, now), at);
    let hits = table.filter(delivered_to(message_id, now));
    let k = choose|k: int| 0 <= k < hits.len() && hits[k] == waiting;
    assert(waiters_of(hits)[k] == waiting.waiter);
    let rest = table.filter(passed_over(message_id, now));
    if rest.contains(waiting) {
        let j = choose|j: int| 0 <= j < rest.len() && rest[j] == waiting;
        table.lemma_filter_pred(passed_over(message_id, now), j);
    }
}

/// A waiter that no update has resolved times out once its deadline has
/// come: it leaves the table, and its slot is among the timed-out ones.
pub proof fn lemma_unmatched_waiter_times_out(table: Seq<PendingView>, now: u64, waiting: PendingView)
    requires
        table.contains(waiting),
        waiting.deadline <= now,
    ensures
        waiters_of(table.filter(expired_at(now))).contains(waiting.waiter),
        !table.filter(alive_at(now)).contains(waiting),
{
    let at = choose|i: int| 0 <= i < table.len() && table[i] == waiting;
    table.lemma_filter_contains(expired_at(now), at);
    let hits = table.filter(expired_at(now));
    let k = choose|k: int| 0 <= k < hits.len() && hits[k] == waiting;
    assert(waiters_of(hits)[k] == waiting.waiter);
    let rest = table.filter(alive_at(now));
    if rest.contains(waiting) {
        let j = choose|j: int| 0 <= j < rest.len() && rest[j] == waiting;
        table.lemma_filter_pred(alive_at(now), j);
    }
}

/// Before its deadline a waiter does not time out.
pub proof fn lemma_waiter_stays_until_deadline(table: Seq<PendingView>, now: u64, waiting: PendingView)
    requires
        table.contains(waiting),
        now < waiting.deadline,
    ensures
        table.filter(alive_at(now)).contains(waiting),
        !table.filter(expired_at(now)).contains(waiting),
{
    let at = choose|i: int| 0 <= i < table.len() && table[i] == waiting;
    table.lemma_filter_contains(alive_at(now), at);
    let hits = table.filter(expired_at(now));
    if hits.contains(waiting) {
        let k = choose|k: int| 0 <= k < hits.len() && hits[k] == waiting;
        table.lemma_filter_pred(expired_at(now), k);
    }
}

/// What a filter leaves of a table is a table: its slots were handed out
/// and are distinct.
pub proof fn lemma_filter_keeps_table(
    table: Seq<PendingView>,
    keep: spec_fn(PendingView) -> bool,
    issued: u64,
)
    requires
        forall|i: int| 0 <= i < table.len() ==> (#[trigger] table[i]).waiter < issued,
        forall|i: int, j: int|
            0 <= i < j < table.len() ==> (#[trigger] table[i]).waiter != (#[trigger] table[j]).waiter,
    ensures
        forall|i: int|
            0 <= i < table.filter(keep).len() ==> (#[trigger] table.filter(keep)[i]).waiter
                < issued,
        forall|i: int, j: int|
            0 <= i < j < table.filter(keep).len() ==> (#[trigger] table.filter(keep)[i]).waiter != (
            #[trigger] table.filter(keep)[j]).waiter,
        forall|i: int|
            0 <= i < table.filter(keep).len() ==> table.contains(#[trigger] table.filter(keep)[i]),
    decreases table.len(),
{
    reveal(Seq::filter);
    if table.len() > 0 {
        let front = table.drop_last();
        lemma_filter_keeps_table(front, keep, issued);
        let kept = front.filter(keep);
        assert forall|i: int| 0 <= i < kept.len() implies table.contains(#[trigger] kept[i]) by {
            let k = choose|k: int| 0 <= k < front.len() && front[k] == kept[i];
        }
        if keep(table.last()) {
            assert forall|i: int, j: int| 0 <= i < j < table.filter(keep).len() implies (
            #[trigger] table.filter(keep)[i]).waiter != (#[trigger] table.filter(keep)[j]).waiter by {
                if j == kept.len() {
                    let k = choose|k: int| 0 <= k < front.len() && front[k] == kept[i];
                }
            }
            assert forall|i: int| 0 <= i < table.filter(keep).len() implies table.contains(
                #[trigger] table.filter(keep)[i],
            ) by {
                if i == kept.len() {
                }
            }
        }
    }
}

} // verus!
