//! The response cache: a bounded mapping from request keys to upstream
//! responses, kept in insertion order. A replaced key moves to the newest
//! end; the oldest entries leave first. Time is a count of milliseconds on a
//! monotonic clock that the caller reads.

use vstd::prelude::*;
use trust_dns_proto::op::Message;
use crate::config::CacheConfiguration;
use crate::message::clone_message;
use crate::request_key::{RequestKey, RequestKeyView};

verus! {

/// A cached response: the message with its TTLs clamped, when it was
/// inserted, and the least of its TTLs, which is above 0.
pub struct CacheObject {
    pub message: Message,
    pub inserted_at_millis: u64,
    pub min_ttl_seconds: u32,
}

/// One entry of the cache.
pub struct CacheSlot {
    pub key: RequestKey,
    pub object: CacheObject,
}

/// The milliseconds from `inserted_at` to `now`; 0 where `now` is earlier.
pub open spec fn millis_between(inserted_at: u64, now: u64) -> int {
    if now >= inserted_at { now - inserted_at } else { 0 }
}

/// An entry is expired once it has been in cache for its least TTL.
pub open spec fn expired_at(object: CacheObject, now: u64) -> bool {
    millis_between(object.inserted_at_millis, now) >= object.min_ttl_seconds * 1000
}

/// Every entry's least TTL is above 0.
pub open spec fn all_live(slots: Seq<CacheSlot>) -> bool {
    forall|i: int| 0 <= i < slots.len() ==> (#[trigger] slots[i]).object.wf()
}

/// No key occurs twice.
pub open spec fn distinct_keys(slots: Seq<CacheSlot>) -> bool {
    forall|i: int, j: int| 0 <= i < j < slots.len() ==> slots[i].key@ != slots[j].key@
}

/// Whether an entry stands under the key.
pub open spec fn holds(slots: Seq<CacheSlot>, key: RequestKeyView) -> bool {
    exists|i: int| 0 <= i < slots.len() && slots[i].key@ == key
}

/// The position of an entry under the key.
pub open spec fn slot_of(slots: Seq<CacheSlot>, key: RequestKeyView) -> int {
    choose|i: int| 0 <= i < slots.len() && slots[i].key@ == key
}

/// The entries without the one under the key.
pub open spec fn without(slots: Seq<CacheSlot>, key: RequestKeyView) -> Seq<CacheSlot> {
    if holds(slots, key) {
        slots.remove(slot_of(slots, key))
    } else {
        slots
    }
}

/// The entries after a put: the entry under the same key is gone, the new one
/// stands at the newest end, and the oldest have left until `max_size` fit.
pub open spec fn after_put(slots: Seq<CacheSlot>, slot: CacheSlot, max_size: usize) -> Seq<CacheSlot> {
    let all = without(slots, slot.key@).push(slot);
    if all.len() > max_size {
        all.skip(all.len() - max_size)
    } else {
        all
    }
}

/// The entries after a purge at `now` that may remove `budget` entries: from
/// the oldest on, expired entries leave until the budget is spent.
pub open spec fn purged(slots: Seq<CacheSlot>, now: u64, budget: nat) -> Seq<CacheSlot>
    decreases slots.len(),
{
    if slots.len() == 0 || budget == 0 {
        slots
    } else if expired_at(slots[0].object, now) {
        purged(slots.drop_first(), now, (budget - 1) as nat)
    } else {
        seq![slots[0]] + purged(slots.drop_first(), now, budget)
    }
}

/// The number of entries that are expired at `now`.
pub open spec fn count_expired(slots: Seq<CacheSlot>, now: u64) -> nat
    decreases slots.len(),
{
    if slots.len() == 0 {
        0
    } else if expired_at(slots[0].object, now) {
        1 + count_expired(slots.drop_first(), now)
    } else {
        count_expired(slots.drop_first(), now)
    }
}

impl CacheObject {
    /// The entry's invariant: its least TTL is above 0.
    pub open spec fn wf(&self) -> bool {
        self.min_ttl_seconds > 0
    }

    /// An entry for a message inserted at `inserted_at_millis`.
    pub fn new(message: Message, inserted_at_millis: u64, min_ttl_seconds: u32) -> (r: Self)
        requires
            min_ttl_seconds > 0,
        ensures
            r.wf(),
            r.message == message,
            r.inserted_at_millis == inserted_at_millis,
            r.min_ttl_seconds == min_ttl_seconds,
    {
        CacheObject { message, inserted_at_millis, min_ttl_seconds }
    }

    /// Whether the entry is expired at `now_millis`.
    pub fn expired(&self, now_millis: u64) -> (r: bool)
        ensures
            r == expired_at(*self, now_millis),
    {
        self.millis_in_cache(now_millis) >= self.min_ttl_seconds as u64 * 1000
    }

    /// The time that the entry has been in cache at `now_millis`.
    pub fn millis_in_cache(&self, now_millis: u64) -> (r: u64)
        ensures
            r == millis_between(self.inserted_at_millis, now_millis),
    {
        if now_millis >= self.inserted_at_millis {
            now_millis - self.inserted_at_millis
        } else {
            0
        }
    }

    /// The whole seconds that the entry has been in cache at `now_millis`.
    pub fn seconds_in_cache(&self, now_millis: u64) -> (r: u64)
        ensures
            r == millis_between(self.inserted_at_millis, now_millis) / 1000,
    {
        self.millis_in_cache(now_millis) / 1000
    }

    /// A copy of the entry, message included.
    pub fn duplicate(&self) -> (r: Self)
        ensures
            r == *self,
    {
        CacheObject {
            message: clone_message(&self.message),
            inserted_at_millis: self.inserted_at_millis,
            min_ttl_seconds: self.min_ttl_seconds,
        }
    }
}

/// The response cache.
pub struct Cache {
    entries: Vec<CacheSlot>,
    max_size: usize,
    max_purges_per_timer_pop: usize,
}

/// Removing one entry keeps the keys distinct and the entries' invariant,
/// and the removed entry's key is then absent.
pub proof fn remove_keeps_distinct(slots: Seq<CacheSlot>, at: int)
    requires
        distinct_keys(slots),
        0 <= at < slots.len(),
    ensures
        distinct_keys(slots.remove(at)),
        !holds(slots.remove(at), slots[at].key@),
        all_live(slots) ==> all_live(slots.remove(at)),
{
    let rest = slots.remove(at);
    assert forall|i: int| 0 <= i < rest.len() && all_live(slots) implies (#[trigger] rest[i]).object.wf() by {
        let a = if i < at { i } else { i + 1 };
        assert(rest[i] == slots[a]);
    }
    assert forall|i: int, j: int| 0 <= i < j < rest.len() implies rest[i].key@ != rest[j].key@ by {
        let a = if i < at { i } else { i + 1 };
        let b = if j < at { j } else { j + 1 };
        assert(rest[i] == slots[a]);
        assert(rest[j] == slots[b]);
    }
    assert forall|i: int| 0 <= i < rest.len() implies rest[i].key@ != slots[at].key@ by {
        let a = if i < at { i } else { i + 1 };
        assert(rest[i] == slots[a]);
    }
}

/// A put keeps the keys distinct and the cache within its capacity, and where
/// the capacity is not 0 the new entry is then the one under its key.
pub proof fn put_keeps_invariant(slots: Seq<CacheSlot>, slot: CacheSlot, max_size: usize)
    requires
        distinct_keys(slots),
        slots.len() <= max_size,
    ensures
        distinct_keys(after_put(slots, slot, max_size)),
        after_put(slots, slot, max_size).len() <= max_size,
        max_size >= 1 ==> holds(after_put(slots, slot, max_size), slot.key@) && after_put(
            slots,
            slot,
            max_size,
        )[slot_of(after_put(slots, slot, max_size), slot.key@)] == slot,
{
    let key = slot.key@;
    let kept = without(slots, key);
    if holds(slots, key) {
        remove_keeps_distinct(slots, slot_of(slots, key));
    }
    assert(!holds(kept, key));
    let all = kept.push(slot);
    assert forall|i: int, j: int| 0 <= i < j < all.len() implies all[i].key@ != all[j].key@ by {
        assert(all[i] == kept[i]);
        if j < kept.len() {
            assert(all[j] == kept[j]);
        }
    }
    let out = after_put(slots, slot, max_size);
    let d = all.len() - out.len();
    assert forall|i: int| 0 <= i < out.len() implies out[i] == all[i + d] by {}
    assert forall|i: int, j: int| 0 <= i < j < out.len() implies out[i].key@ != out[j].key@ by {
        assert(out[i] == all[i + d]);
        assert(out[j] == all[j + d]);
    }
    if max_size >= 1 {
        let last = out.len() - 1;
        assert(out[last] == all[last + d]);
        assert(out[last].key@ == key);
        let c = slot_of(out, key);
        if c < last {
            assert(out[c].key@ != out[last].key@);
        }
    }
}

/// A put of a new key into a full cache removes the oldest entry and no
/// other.
pub proof fn put_evicts_oldest(slots: Seq<CacheSlot>, slot: CacheSlot, max_size: usize)
    requires
        max_size >= 1,
        slots.len() == max_size,
        !holds(slots, slot.key@),
    ensures
        after_put(slots, slot, max_size) == slots.drop_first().push(slot),
{
    assert(after_put(slots, slot, max_size) =~= slots.drop_first().push(slot));
}

/// A put of a key that the cache holds removes no other entry: the entry
/// under the key gives way to the new one, which is then the newest.
pub proof fn put_replaces_in_place(slots: Seq<CacheSlot>, slot: CacheSlot, max_size: usize)
    requires
        slots.len() <= max_size,
        holds(slots, slot.key@),
    ensures
        after_put(slots, slot, max_size) == slots.remove(slot_of(slots, slot.key@)).push(slot),
{
}

/// A purge removes as many entries as are expired, up to its budget.
pub proof fn purge_removes_expired_up_to_budget(slots: Seq<CacheSlot>, now: u64, budget: nat)
    ensures
        purged(slots, now, budget).len() + count_expired(slots, now) == slots.len() || purged(
            slots,
            now,
            budget,
        ).len() + budget == slots.len(),
        purged(slots, now, budget).len() + budget >= slots.len(),
        purged(slots, now, budget).len() + count_expired(slots, now) >= slots.len(),
        purged(slots, now, budget).len() <= slots.len(),
    decreases slots.len(),
{
    if slots.len() == 0 || budget == 0 {
        count_is_bounded(slots, now);
    } else if expired_at(slots[0].object, now) {
        purge_removes_expired_up_to_budget(slots.drop_first(), now, (budget - 1) as nat);
    } else {
        purge_removes_expired_up_to_budget(slots.drop_first(), now, budget);
    }
}

/// No more entries are expired than there are.
pub proof fn count_is_bounded(slots: Seq<CacheSlot>, now: u64)
    ensures
        count_expired(slots, now) <= slots.len(),
    decreases slots.len(),
{
    if slots.len() > 0 {
        count_is_bounded(slots.drop_first(), now);
    }
}

/// A purge keeps the entries' invariant.
pub proof fn purge_keeps_live(slots: Seq<CacheSlot>, now: u64, budget: nat)
    requires
        all_live(slots),
    ensures
        all_live(purged(slots, now, budget)),
    decreases slots.len(),
{
    if slots.len() == 0 || budget == 0 {
    } else {
        let rest = slots.drop_first();
        assert forall|i: int| 0 <= i < rest.len() implies (#[trigger] rest[i]).object.wf() by {
            assert(rest[i] == slots[i + 1]);
        }
        if expired_at(slots[0].object, now) {
            purge_keeps_live(rest, now, (budget - 1) as nat);
        } else {
            purge_keeps_live(rest, now, budget);
            let sub = purged(rest, now, budget);
            let out = purged(slots, now, budget);
            assert forall|i: int| 0 <= i < out.len() implies (#[trigger] out[i]).object.wf() by {
                if i == 0 {
                    assert(out[0] == slots[0]);
                } else {
                    assert(out[i] == sub[i - 1]);
                }
            }
        }
    }
}

/// A purge keeps the keys distinct.
pub proof fn purge_keeps_distinct(slots: Seq<CacheSlot>, now: u64, budget: nat)
    requires
        distinct_keys(slots),
    ensures
        distinct_keys(purged(slots, now, budget)),
        forall|k: RequestKeyView| holds(purged(slots, now, budget), k) ==> holds(slots, k),
    decreases slots.len(),
{
    if slots.len() == 0 || budget == 0 {
    } else {
        let rest = slots.drop_first();
        assert forall|i: int, j: int| 0 <= i < j < rest.len() implies rest[i].key@ != rest[j].key@ by {
            assert(rest[i] == slots[i + 1]);
            assert(rest[j] == slots[j + 1]);
        }
        let b: nat = if expired_at(slots[0].object, now) { (budget - 1) as nat } else { budget };
        purge_keeps_distinct(rest, now, b);
        let out = purged(slots, now, budget);
        let sub = purged(rest, now, b);
        assert forall|k: RequestKeyView| holds(sub, k) implies holds(slots, k) by {
            assert(holds(rest, k));
            let i = choose|i: int| 0 <= i < rest.len() && rest[i].key@ == k;
            assert(slots[i + 1].key@ == k);
        }
        if expired_at(slots[0].object, now) {
            assert(out == sub);
        } else {
            assert(out == seq![slots[0]] + sub);
            assert forall|i: int, j: int| 0 <= i < j < out.len() implies out[i].key@ != out[j].key@ by {
                assert(out[j] == sub[j - 1]);
                if i == 0 {
                    if out[0].key@ == out[j].key@ {
                        assert(holds(sub, out[j].key@));
                        assert(holds(rest, slots[0].key@));
                        let p = choose|p: int| 0 <= p < rest.len() && rest[p].key@ == slots[0].key@;
                        assert(slots[p + 1].key@ == slots[0].key@);
                    }
                } else {
                    assert(out[i] == sub[i - 1]);
                }
            }
            assert forall|k: RequestKeyView| holds(out, k) implies holds(slots, k) by {
                let i = choose|i: int| 0 <= i < out.len() && out[i].key@ == k;
                if i == 0 {
                    assert(slots[0].key@ == k);
                } else {
                    assert(out[i] == sub[i - 1]);
                    assert(holds(sub, k));
                }
            }
        }
    }
}

impl Cache {
    /// The entries, oldest first.
    pub closed spec fn slots(&self) -> Seq<CacheSlot> {
        self.entries@
    }

    /// The most entries that the cache holds.
    pub closed spec fn capacity(&self) -> usize {
        self.max_size
    }

    /// The most entries that one purge removes.
    pub closed spec fn purge_budget(&self) -> usize {
        self.max_purges_per_timer_pop
    }

    /// The cache's invariant: no key occurs twice, the entries fit, and each
    /// entry's least TTL is above 0.
    pub open spec fn wf(&self) -> bool {
        distinct_keys(self.slots()) && self.slots().len() <= self.capacity() && all_live(
            self.slots(),
        )
    }

    /// An empty cache with the configured bounds.
    pub fn new(cache_configuration: CacheConfiguration) -> (r: Self)
        ensures
            r.wf(),
            r.slots().len() == 0,
            r.capacity() == cache_configuration.max_size,
            r.purge_budget() == cache_configuration.max_purges_per_timer_pop,
    {
        Cache {
            entries: Vec::new(),
            max_size: cache_configuration.max_size(),
            max_purges_per_timer_pop: cache_configuration.max_purges_per_timer_pop(),
        }
    }

    /// The number of entries.
    pub fn len(&self) -> (r: usize)
        ensures
            r == self.slots().len(),
    {
        self.entries.len()
    }

    /// The position of the entry under a key, or the number of entries where
    /// there is none.
    fn position(&self, key: &RequestKey) -> (r: usize)
        ensures
            r <= self.slots().len(),
            r < self.slots().len() ==> self.slots()[r as int].key@ == key@,
            r == self.slots().len() ==> !holds(self.slots(), key@),
            r < self.slots().len() ==> holds(self.slots(), key@),
            self.wf() && r < self.slots().len() ==> r == slot_of(self.slots(), key@),
    {
        let mut i: usize = 0;
        while i < self.entries.len() && !self.entries[i].key.same_as(key)
            invariant
                i <= self.entries.len(),
                forall|j: int| 0 <= j < i ==> self.entries@[j].key@ != key@,
            decreases self.entries.len() - i,
        {
            i += 1;
        }
        proof {
            if i < self.entries.len() && self.wf() {
                let c = slot_of(self.slots(), key@);
                assert(self.slots()[i as int].key@ == key@);
                assert(self.slots()[c].key@ == key@);
                if c < i {
                    assert(self.slots()[c].key@ != self.slots()[i as int].key@);
                }
                if i < c {
                    assert(self.slots()[i as int].key@ != self.slots()[c].key@);
                }
            }
        }
        i
    }

    /// A copy of the entry under a key, expired or not. The order of the
    /// entries does not change.
    pub fn get(&self, key: &RequestKey) -> (r: Option<CacheObject>)
        requires
            self.wf(),
        ensures
            match r {
                Some(object) => holds(self.slots(), key@) && object == self.slots()[slot_of(
                    self.slots(),
                    key@,
                )].object,
                None => !holds(self.slots(), key@),
            },
    {
        let i = self.position(key);
        if i < self.entries.len() {
            Some(self.entries[i].object.duplicate())
        } else {
            None
        }
    }

    /// A copy of the entry under a key, if there is one and it is not expired
    /// at `now_millis`.
    pub fn get_unexpired(&self, key: &RequestKey, now_millis: u64) -> (r: Option<CacheObject>)
        requires
            self.wf(),
        ensures
            r.is_some() <==> holds(self.slots(), key@) && !expired_at(
                self.slots()[slot_of(self.slots(), key@)].object,
                now_millis,
            ),
            r.is_some() ==> r.unwrap() == self.slots()[slot_of(self.slots(), key@)].object,
    {
        match self.get(key) {
            Some(object) => {
                if object.expired(now_millis) {
                    None
                } else {
                    Some(object)
                }
            },
            None => None,
        }
    }

    /// Inserts an entry, in place of the one under the same key if there is
    /// one. The new entry is the newest; then the oldest entries leave until
    /// the cache is within its capacity. Afterwards the cache holds no more
    /// entries than its capacity, and the new entry stands at the newest end
    /// where the capacity is not 0.
    pub fn put(&mut self, key: RequestKey, object: CacheObject)
        requires
            old(self).wf(),
            object.wf(),
        ensures
            final(self).wf(),
            final(self).capacity() == old(self).capacity(),
            final(self).purge_budget() == old(self).purge_budget(),
            final(self).slots() == after_put(
                old(self).slots(),
                (CacheSlot { key, object }),
                old(self).capacity(),
            ),
            final(self).slots().len() <= final(self).capacity(),
            final(self).capacity() >= 1 ==> final(self).slots().len() >= 1 && final(self).slots().last()
                == (CacheSlot { key, object }),
    {
        let at = self.position(&key);
        let ghost before = self.entries@;
        if at < self.entries.len() {
            proof {
                remove_keeps_distinct(before, at as int);
            }
            self.entries.remove(at);
        }
        let ghost kept = self.entries@;
        assert(kept == without(before, key@));
        assert(!holds(kept, key@));
        assert(distinct_keys(kept));
        assert(all_live(kept));
        let slot = CacheSlot { key, object };
        self.entries.push(slot);
        let ghost all = self.entries@;
        assert(all == kept.push(slot));
        assert(distinct_keys(all)) by {
            assert forall|i: int, j: int| 0 <= i < j < all.len() implies all[i].key@ != all[j].key@ by {
                if j == all.len() - 1 {
                    assert(all[i] == kept[i]);
                    assert(!holds(kept, slot.key@));
                } else {
                    assert(all[i] == kept[i]);
                    assert(all[j] == kept[j]);
                }
            }
        }
        assert(all.skip(0) =~= all);
        assert(all_live(all)) by {
            assert forall|i: int| 0 <= i < all.len() implies (#[trigger] all[i]).object.wf() by {
                if i < kept.len() {
                    assert(all[i] == kept[i]);
                }
            }
        }
        while self.entries.len() > self.max_size
            invariant
                all_live(self.entries@),
                all.len() <= self.max_size ==> self.entries@.len() == all.len(),
                all.len() > self.max_size ==> self.entries@.len() >= self.max_size,
                self.max_size == old(self).max_size,
                self.max_purges_per_timer_pop == old(self).max_purges_per_timer_pop,
                self.entries@.len() <= all.len(),
                self.entries@ == all.skip(all.len() - self.entries@.len()),
                distinct_keys(self.entries@),
            decreases self.entries.len(),
        {
            proof {
                remove_keeps_distinct(self.entries@, 0);
            }
            let ghost prev = self.entries@;
            self.entries.remove(0);
            assert(self.entries@ =~= all.skip(all.len() - self.entries@.len())) by {
                assert(self.entries@ == prev.remove(0));
            }
        }
    }

    /// Removes expired entries, oldest first, until none is left or as many
    /// are removed as one purge may remove. Gives the number of entries left
    /// and the number removed.
    pub fn periodic_purge(&mut self, now_millis: u64) -> (r: (usize, usize))
        requires
            old(self).wf(),
        ensures
            final(self).wf(),
            final(self).capacity() == old(self).capacity(),
            final(self).purge_budget() == old(self).purge_budget(),
            final(self).slots() == purged(old(self).slots(), now_millis, old(self).purge_budget() as nat),
            r.0 == final(self).slots().len(),
            r.1 == old(self).slots().len() - final(self).slots().len(),
            r.1 <= old(self).purge_budget(),
            r.1 <= count_expired(old(self).slots(), now_millis),
            r.1 == old(self).purge_budget() || r.1 == count_expired(old(self).slots(), now_millis),
    {
        let ghost before = self.entries@;
        let ghost budget = self.max_purges_per_timer_pop as nat;
        let mut i: usize = 0;
        let mut removed: usize = 0;
        proof {
            let all = purged(before, now_millis, budget);
            assert(before.skip(0) =~= before);
            assert(before.take(0) + all =~= all);
        }
        while i < self.entries.len() && removed < self.max_purges_per_timer_pop
            invariant
                self.max_size == old(self).max_size,
                self.max_purges_per_timer_pop == old(self).max_purges_per_timer_pop,
                budget == self.max_purges_per_timer_pop,
                i <= self.entries.len(),
                removed <= self.max_purges_per_timer_pop,
                self.entries@.len() + removed == before.len(),
                purged(before, now_millis, budget) == self.entries@.take(i as int) + purged(
                    self.entries@.skip(i as int),
                    now_millis,
                    (budget - removed) as nat,
                ),
            decreases self.entries.len() - i,
        {
            let ghost cur = self.entries@;
            let ghost tail = cur.skip(i as int);
            assert(tail[0] == cur[i as int]);
            assert(tail.drop_first() =~= cur.skip(i + 1));
            if self.entries[i].object.expired(now_millis) {
                self.entries.remove(i);
                removed += 1;
                assert(self.entries@.take(i as int) =~= cur.take(i as int));
                assert(self.entries@.skip(i as int) =~= cur.skip(i + 1));
            } else {
                assert(cur.take(i + 1) =~= cur.take(i as int) + seq![cur[i as int]]);
                assert(cur.take(i as int) + (seq![cur[i as int]] + purged(
                    cur.skip(i + 1),
                    now_millis,
                    (budget - removed) as nat,
                )) =~= cur.take(i + 1) + purged(
                    cur.skip(i + 1),
                    now_millis,
                    (budget - removed) as nat,
                ));
                i += 1;
            }
        }
        proof {
            let tail = self.entries@.skip(i as int);
            assert(purged(tail, now_millis, (budget - removed) as nat) == tail);
            assert(self.entries@.take(i as int) + tail =~= self.entries@);
            purge_keeps_distinct(before, now_millis, budget);
            purge_keeps_live(before, now_millis, budget);
            purge_removes_expired_up_to_budget(before, now_millis, budget);
        }
        (self.entries.len(), removed)
    }
}

} // verus!
