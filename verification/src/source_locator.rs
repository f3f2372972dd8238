//! Bookkeeping of the source locator: the bounded per-device history of
//! recent readings and the allocation of source ids.

use vstd::prelude::*;

verus! {

/// The history after appending `item` to `history` and, when that makes it
/// longer than `capacity`, dropping its oldest entry.
pub open spec fn pushed_recent<T>(history: Seq<T>, item: T, capacity: usize) -> Seq<T> {
    let grown = history.push(item);
    if grown.len() > capacity { grown.drop_first() } else { grown }
}

/// Appends `item` to a device's recent history and drops the oldest entry
/// when the history then holds more than `capacity` entries.
pub fn push_recent<T>(history: &mut Vec<T>, item: T, capacity: usize)
    ensures
        final(history)@ == pushed_recent(old(history)@, item, capacity),
{
    history.push(item);
    if history.len() > capacity {
        history.remove(0);
        assert(history@ =~= pushed_recent(old(history)@, item, capacity));
    }
}

/// A history kept within its capacity stays within it, and the newest
/// reading is kept whenever the capacity is positive.
pub proof fn lemma_recent_bounded<T>(history: Seq<T>, item: T, capacity: usize)
    requires
        history.len() <= capacity,
    ensures
        pushed_recent(history, item, capacity).len() <= capacity,
        capacity > 0 ==> pushed_recent(history, item, capacity).last() == item,
        capacity > 0 ==> pushed_recent(history, item, capacity).len() == if history.len() < capacity {
            history.len() + 1int
        } else {
            capacity as int
        },
{
}

/// The ids of the devices whose recent history is not empty, in the given
/// order; `lengths[i]` is the length of the history of `ids[i]`.
pub open spec fn active_ids(ids: Seq<u32>, lengths: Seq<usize>) -> Seq<u32>
    decreases ids.len(),
{
    if ids.len() == 0 {
        Seq::empty()
    } else {
        let rest = active_ids(ids.drop_last(), lengths.drop_last());
        if lengths[ids.len() - 1] > 0 {
            rest.push(ids.last())
        } else {
            rest
        }
    }
}

/// Picks the devices a localization draws on: those with a non-empty recent
/// history, in the given order, when there are at least `min_devices` of
/// them; `None` when there are fewer.
pub fn select_active_devices(ids: &Vec<u32>, lengths: &Vec<usize>, min_devices: usize) -> (r: Option<Vec<u32>>)
    requires
        ids.len() == lengths.len(),
    ensures
        r is Some <==> active_ids(ids@, lengths@).len() >= min_devices,
        r matches Some(v) ==> v@ == active_ids(ids@, lengths@),
{
    let n = ids.len();
    let mut active: Vec<u32> = Vec::new();
    let mut i: usize = 0;
    while i < n
        invariant
            n == ids.len(),
            n == lengths.len(),
            i <= n,
            active@ == active_ids(ids@.take(i as int), lengths@.take(i as int)),
        decreases n - i,
    {
        assert(ids@.take(i + 1).drop_last() =~= ids@.take(i as int));
        assert(lengths@.take(i + 1).drop_last() =~= lengths@.take(i as int));
        if lengths[i] > 0 {
            active.push(ids[i]);
        }
        i = i + 1;
    }
    assert(ids@.take(n as int) =~= ids@);
    assert(lengths@.take(n as int) =~= lengths@);
    if active.len() < min_devices {
        None
    } else {
        Some(active)
    }
}

/// How many of the history lengths are positive.
pub open spec fn count_positive(lengths: Seq<usize>) -> nat
    decreases lengths.len(),
{
    if lengths.len() == 0 {
        0
    } else {
        count_positive(lengths.drop_last()) + if lengths.last() > 0 { 1nat } else { 0nat }
    }
}

proof fn lemma_count_positive_prefix(lengths: Seq<usize>, k: int, j: int)
    requires
        0 <= k <= j <= lengths.len(),
    ensures
        count_positive(lengths.take(k)) <= count_positive(lengths.take(j)),
        k < j && lengths[k] > 0 ==> count_positive(lengths.take(k)) < count_positive(lengths.take(j)),
    decreases j - k,
{
    if k < j {
        lemma_count_positive_prefix(lengths, k, j - 1);
        assert(lengths.take(j).drop_last() =~= lengths.take(j - 1));
        if k == j - 1 {
            assert(lengths.take(j).last() == lengths[k]);
        }
    }
}

/// The devices a localization draws on are exactly those with a positive
/// history length, in their given order and without any cap on their number:
/// there are as many as there are positive lengths, and the device at
/// position `k` with a positive length is the one selected after all
/// positive-length devices before it.
pub proof fn lemma_active_devices_are_the_nonempty_ones(ids: Seq<u32>, lengths: Seq<usize>)
    requires
        ids.len() == lengths.len(),
    ensures
        active_ids(ids, lengths).len() == count_positive(lengths),
        forall|k: int| 0 <= k < ids.len() && lengths[k] > 0 ==>
            active_ids(ids, lengths)[count_positive(lengths.take(k)) as int] == #[trigger] ids[k],
    decreases ids.len(),
{
    if ids.len() > 0 {
        let n = ids.len() as int;
        let ids0 = ids.drop_last();
        let len0 = lengths.drop_last();
        lemma_active_devices_are_the_nonempty_ones(ids0, len0);
        let rest = active_ids(ids0, len0);
        assert forall|k: int| 0 <= k < ids.len() && lengths[k] > 0 implies
            active_ids(ids, lengths)[count_positive(lengths.take(k)) as int] == #[trigger] ids[k] by {
            assert(lengths.take(n) =~= lengths);
            if k < n - 1 {
                assert(len0.take(k) =~= lengths.take(k));
                assert(len0[k] == lengths[k]);
                assert(ids0[k] == ids[k]);
                lemma_count_positive_prefix(len0, k, n - 1);
                assert(len0.take(n - 1) =~= len0);
            } else {
                assert(lengths.take(k) =~= len0);
            }
        }
    }
}

/// The id claimed (if any) and the counter afterwards, for a localization
/// over `active_devices` devices when at least `min_devices` are needed.
pub open spec fn claim_outcome(active_devices: usize, min_devices: usize, counter: u64) -> (Option<u64>, int) {
    if active_devices < min_devices {
        (None, counter as int)
    } else {
        (Some(counter), counter + 1)
    }
}

/// Decides whether a localization is attempted over `active_devices`
/// devices with a recent reading: it is when at least `min_devices` are
/// active, and then the next source id is taken from `counter`.
pub fn claim_source_id(active_devices: usize, min_devices: usize, counter: &mut u64) -> (id: Option<u64>)
    requires
        active_devices >= min_devices ==> *old(counter) < u64::MAX,
    ensures
        id == claim_outcome(active_devices, min_devices, *old(counter)).0,
        *final(counter) == claim_outcome(active_devices, min_devices, *old(counter)).1,
{
    if active_devices < min_devices {
        return None;
    }
    let id = *counter;
    *counter = *counter + 1;
    Some(id)
}

/// Source ids are never handed out twice: every id claimed after another
/// one is larger.
pub proof fn lemma_source_ids_increase(a1: usize, m1: usize, a2: usize, m2: usize, counter: u64)
    requires
        claim_outcome(a1, m1, counter).0 is Some,
        claim_outcome(a1, m1, counter).1 <= u64::MAX,
    ensures
        ({
            let next = claim_outcome(a1, m1, counter).1 as u64;
            claim_outcome(a2, m2, next).0 matches Some(later) ==> later > claim_outcome(a1, m1, counter).0->0
        }),
{
}

} // verus!
