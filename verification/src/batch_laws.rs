//! What holds of every batch: how its slots are counted, how starting and recording
//! fetches change it, and that the pictures it puts together stand in list order.

use crate::batch::{
    assembled, count, first_error, survivors, BatchView, Concurrency, SlotKind, SlotView,
};
use crate::shinobi::SnapshotReplyView;
use vstd::prelude::*;

verus! {

/// Changing one slot moves one unit of count from the old kind to the new one.
pub proof fn lemma_count_update(slots: Seq<SlotView>, index: int, slot: SlotView, kind: SlotKind)
    requires
        0 <= index < slots.len(),
    ensures
        count(slots.update(index, slot), kind) == count(slots, kind) - (if slots[index].kind()
            == kind {
            1int
        } else {
            0int
        }) + (if slot.kind() == kind {
            1int
        } else {
            0int
        }),
    decreases slots.len(),
{
    let changed = slots.update(index, slot);
    if index == slots.len() - 1 {
        assert(changed.drop_last() =~= slots.drop_last());
    } else {
        lemma_count_update(slots.drop_last(), index, slot, kind);
        assert(changed.drop_last() =~= slots.drop_last().update(index, slot));
    }
}

/// Every slot is of exactly one kind.
pub proof fn lemma_count_total(slots: Seq<SlotView>)
    ensures
        count(slots, SlotKind::Waiting) + count(slots, SlotKind::InFlight) + count(
            slots,
            SlotKind::Fetched,
        ) + count(slots, SlotKind::Failed) == slots.len(),
    decreases slots.len(),
{
    if slots.len() > 0 {
        lemma_count_total(slots.drop_last());
    }
}

/// A count is zero exactly when no slot is of that kind.
pub proof fn lemma_count_zero(slots: Seq<SlotView>, kind: SlotKind)
    ensures
        count(slots, kind) == 0 <==> forall|i: int|
            0 <= i < slots.len() ==> (#[trigger] slots[i]).kind() != kind,
    decreases slots.len(),
{
    if slots.len() > 0 {
        let front = slots.drop_last();
        lemma_count_zero(front, kind);
        if count(slots, kind) == 0 {
            assert forall|i: int| 0 <= i < slots.len() implies (#[trigger] slots[i]).kind()
                != kind by {
                if i < slots.len() - 1 {
                    assert(front[i] == slots[i]);
                }
            }
        } else {
            if count(front, kind) != 0 {
                let i = choose|i: int| 0 <= i < front.len() && (#[trigger] front[i]).kind() == kind;
                assert(slots[i] == front[i]);
            } else {
                assert(slots[slots.len() - 1].kind() == kind);
            }
        }
    }
}

/// A count is the whole length exactly when every slot is of that kind.
pub proof fn lemma_count_all(slots: Seq<SlotView>, kind: SlotKind)
    ensures
        count(slots, kind) <= slots.len(),
        count(slots, kind) == slots.len() <==> forall|i: int|
            0 <= i < slots.len() ==> (#[trigger] slots[i]).kind() == kind,
    decreases slots.len(),
{
    if slots.len() > 0 {
        let front = slots.drop_last();
        lemma_count_all(front, kind);
        if count(slots, kind) == slots.len() {
            assert forall|i: int| 0 <= i < slots.len() implies (#[trigger] slots[i]).kind()
                == kind by {
                if i < slots.len() - 1 {
                    assert(front[i] == slots[i]);
                }
            }
        } else {
            if count(front, kind) != front.len() {
                let i = choose|i: int| 0 <= i < front.len() && (#[trigger] front[i]).kind() != kind;
                assert(slots[i] == front[i]);
            } else {
                assert(slots[slots.len() - 1].kind() != kind);
            }
        }
    }
}

/// There are as many pictures as fetched slots, and as many surviving indices.
pub proof fn lemma_assembled_len(slots: Seq<SlotView>)
    ensures
        assembled(slots).len() == count(slots, SlotKind::Fetched),
        survivors(slots).len() == count(slots, SlotKind::Fetched),
    decreases slots.len(),
{
    if slots.len() > 0 {
        lemma_assembled_len(slots.drop_last());
    }
}

/// A fresh batch is well-formed, and all of its monitors wait.
pub proof fn lemma_fresh(monitors: Seq<Seq<char>>)
    ensures
        BatchView::fresh(monitors).wf(),
        BatchView::fresh(monitors).waiting() == monitors.len(),
        BatchView::fresh(monitors).in_flight() == 0,
        BatchView::fresh(monitors).failures() == 0,
        BatchView::fresh(monitors).assembled().len() == 0,
{
    let batch = BatchView::fresh(monitors);
    lemma_count_all(batch.slots, SlotKind::Waiting);
    lemma_count_total(batch.slots);
    lemma_assembled_len(batch.slots);
}

/// In a well-formed batch the waiting slots are exactly those from `launched()` on.
pub proof fn lemma_waiting_suffix(batch: BatchView)
    requires
        batch.wf(),
    ensures
        0 <= batch.launched() <= batch.slots.len(),
        forall|i: int|
            0 <= i < batch.slots.len() ==> ((#[trigger] batch.slots[i]) is Waiting <==> i
                >= batch.launched()),
    decreases batch.slots.len(),
{
    let slots = batch.slots;
    lemma_count_all(slots, SlotKind::Waiting);
    if slots.len() > 0 {
        let front = BatchView { monitors: batch.monitors.drop_last(), slots: slots.drop_last() };
        assert(front.wf()) by {
            assert forall|i: int| 0 <= i < front.slots.len() implies (
            #[trigger] front.slots[i] matches SlotView::Fetched(picture) ==> picture.monitor_id
                == front.monitors[i]) by {
                assert(front.slots[i] == slots[i]);
            }
            assert forall|i: int, j: int|
                0 <= i <= j < front.slots.len() && (#[trigger] front.slots[i]) is Waiting implies (
            #[trigger] front.slots[j]) is Waiting by {
                assert(front.slots[i] == slots[i]);
                assert(front.slots[j] == slots[j]);
            }
        }
        lemma_waiting_suffix(front);
        if slots.last() is Waiting {
            assert forall|i: int| 0 <= i < slots.len() implies ((#[trigger] slots[i]) is Waiting
                <==> i >= batch.launched()) by {
                if i < slots.len() - 1 {
                    assert(front.slots[i] == slots[i]);
                }
            }
        } else {
            assert forall|i: int| 0 <= i < slots.len() implies (#[trigger] slots[i]).kind()
                != SlotKind::Waiting by {
                if slots[i] is Waiting {
                    assert(slots[slots.len() - 1] is Waiting);
                }
            }
            lemma_count_zero(slots, SlotKind::Waiting);
        }
    }
}

/// Once a prefix of the slots holds a failure, the first error of the whole is that of
/// the prefix.
pub proof fn lemma_first_error_prefix(slots: Seq<SlotView>, n: int)
    requires
        0 <= n <= slots.len(),
        first_error(slots.take(n)) is Some,
    ensures
        first_error(slots) == first_error(slots.take(n)),
    decreases slots.len() - n,
{
    if n < slots.len() {
        assert(slots.take(n + 1).drop_last() =~= slots.take(n));
        lemma_first_error_prefix(slots, n + 1);
    } else {
        assert(slots.take(n) =~= slots);
    }
}

/// The pictures put together are exactly those of the slots that hold one: no more
/// pictures than slots, the k-th picture taken from the slot at the k-th surviving
/// index, the surviving indices strictly rising, and no fetched slot left out.
pub proof fn lemma_assembled_in_slot_order(slots: Seq<SlotView>)
    ensures
        assembled(slots).len() == survivors(slots).len(),
        assembled(slots).len() <= slots.len(),
        forall|k: int|
            0 <= k < survivors(slots).len() ==> {
                &&& 0 <= (#[trigger] survivors(slots)[k]) < slots.len()
                &&& slots[survivors(slots)[k]] == SlotView::Fetched(assembled(slots)[k])
            },
        forall|k: int, l: int|
            0 <= k < l < survivors(slots).len() ==> (#[trigger] survivors(slots)[k]) < (
            #[trigger] survivors(slots)[l]),
        forall|i: int|
            0 <= i < slots.len() && (#[trigger] slots[i]) is Fetched ==> survivors(
                slots,
            ).contains(i),
    decreases slots.len(),
{
    if slots.len() > 0 {
        let front = slots.drop_last();
        let last = slots.len() - 1;
        lemma_assembled_in_slot_order(front);
        assert forall|k: int| 0 <= k < survivors(slots).len() implies {
            &&& 0 <= (#[trigger] survivors(slots)[k]) < slots.len()
            &&& slots[survivors(slots)[k]] == SlotView::Fetched(assembled(slots)[k])
        } by {
            if k < survivors(front).len() {
                assert(survivors(slots)[k] == survivors(front)[k]);
                assert(front[survivors(front)[k]] == slots[survivors(front)[k]]);
            }
        }
        assert forall|k: int, l: int| 0 <= k < l < survivors(slots).len() implies (
        #[trigger] survivors(slots)[k]) < (#[trigger] survivors(slots)[l]) by {
            assert(survivors(slots)[k] == survivors(front)[k]);
            if l < survivors(front).len() {
                assert(survivors(slots)[l] == survivors(front)[l]);
            }
        }
        assert forall|i: int|
            0 <= i < slots.len() && (#[trigger] slots[i]) is Fetched implies survivors(
            slots,
        ).contains(i) by {
            if i < last {
                assert(front[i] == slots[i]);
                let k = choose|k: int|
                    0 <= k < survivors(front).len() && survivors(front)[k] == i;
                assert(survivors(slots)[k] == i);
            } else {
                assert(survivors(slots)[survivors(slots).len() - 1] == i);
            }
        }
    }
}

/// Each picture of a well-formed batch comes from one monitor of the list, a different
/// one for each picture, and the pictures stand in the order of the list.
pub proof fn lemma_assembled_traceable(batch: BatchView)
    requires
        batch.wf(),
    ensures
        batch.assembled().len() <= batch.monitors.len(),
        batch.assembled().len() == survivors(batch.slots).len(),
        forall|k: int|
            0 <= k < batch.assembled().len() ==> {
                &&& 0 <= survivors(batch.slots)[k] < batch.monitors.len()
                &&& (#[trigger] batch.assembled()[k]).monitor_id
                    == batch.monitors[survivors(batch.slots)[k]]
            },
        forall|k: int, l: int|
            0 <= k < l < batch.assembled().len() ==> (#[trigger] survivors(batch.slots)[k]) < (
            #[trigger] survivors(batch.slots)[l]),
{
    lemma_assembled_in_slot_order(batch.slots);
    assert forall|k: int| 0 <= k < batch.assembled().len() implies {
        &&& 0 <= survivors(batch.slots)[k] < batch.monitors.len()
        &&& (#[trigger] batch.assembled()[k]).monitor_id
            == batch.monitors[survivors(batch.slots)[k]]
    } by {
        let i = survivors(batch.slots)[k];
        assert(batch.slots[i] == SlotView::Fetched(batch.assembled()[k]));
    }
}

/// Changing a slot that holds no picture into one that holds none leaves the pictures
/// as they are.
pub proof fn lemma_update_keeps_pictures(slots: Seq<SlotView>, index: int, slot: SlotView)
    requires
        0 <= index < slots.len(),
        !(slots[index] is Fetched),
        !(slot is Fetched),
    ensures
        assembled(slots.update(index, slot)) == assembled(slots),
        survivors(slots.update(index, slot)) == survivors(slots),
    decreases slots.len(),
{
    let changed = slots.update(index, slot);
    if index == slots.len() - 1 {
        assert(changed.drop_last() =~= slots.drop_last());
    } else {
        lemma_update_keeps_pictures(slots.drop_last(), index, slot);
        assert(changed.drop_last() =~= slots.drop_last().update(index, slot));
    }
}

/// Changing a slot that did not fail into one that did not fail leaves the first
/// error as it is.
pub proof fn lemma_update_keeps_errors(slots: Seq<SlotView>, index: int, slot: SlotView)
    requires
        0 <= index < slots.len(),
        !(slots[index] is Failed),
        !(slot is Failed),
    ensures
        first_error(slots.update(index, slot)) == first_error(slots),
    decreases slots.len(),
{
    let changed = slots.update(index, slot);
    if index == slots.len() - 1 {
        assert(changed.drop_last() =~= slots.drop_last());
    } else {
        lemma_update_keeps_errors(slots.drop_last(), index, slot);
        assert(changed.drop_last() =~= slots.drop_last().update(index, slot));
    }
}

/// Starting the next `n` waiting fetches moves `n` slots from waiting to in flight and
/// touches nothing else.
pub proof fn lemma_start_next(batch: BatchView, n: nat)
    requires
        batch.wf(),
        n <= batch.waiting(),
    ensures
        batch.start_next(n).wf(),
        batch.start_next(n).monitors == batch.monitors,
        batch.start_next(n).waiting() == batch.waiting() - n,
        batch.start_next(n).in_flight() == batch.in_flight() + n,
        batch.start_next(n).failures() == batch.failures(),
        batch.start_next(n).assembled() == batch.assembled(),
        batch.start_next(n).first_error() == batch.first_error(),
        survivors(batch.start_next(n).slots) == survivors(batch.slots),
    decreases n,
{
    lemma_waiting_suffix(batch);
    let first = batch.launched();
    if n == 0 {
        assert(batch.start_next(n).slots =~= batch.slots);
    } else {
        let before = batch.start_next((n - 1) as nat);
        lemma_start_next(batch, (n - 1) as nat);
        let index = first + n - 1;
        let after = batch.start_next(n);
        assert(before.slots[index] == batch.slots[index]);
        assert(after.slots =~= before.slots.update(index, SlotView::InFlight));
        lemma_count_update(before.slots, index, SlotView::InFlight, SlotKind::Waiting);
        lemma_count_update(before.slots, index, SlotView::InFlight, SlotKind::InFlight);
        lemma_count_update(before.slots, index, SlotView::InFlight, SlotKind::Failed);
        lemma_update_keeps_pictures(before.slots, index, SlotView::InFlight);
        lemma_update_keeps_errors(before.slots, index, SlotView::InFlight);
        assert forall|i: int, j: int|
            0 <= i <= j < after.slots.len() && (#[trigger] after.slots[i]) is Waiting implies (
        #[trigger] after.slots[j]) is Waiting by {
            assert(batch.slots[i] is Waiting);
            assert(batch.slots[j] is Waiting);
        }
        assert forall|i: int| 0 <= i < after.slots.len() implies (
        #[trigger] after.slots[i] matches SlotView::Fetched(picture) ==> picture.monitor_id
            == after.monitors[i]) by {
            if after.slots[i] is Fetched {
                assert(after.slots[i] == batch.slots[i]);
            }
        }
    }
}

/// What `launch` does to a well-formed batch: it starts `starting(limit)` fetches,
/// keeps within the limit if the batch was within it, and leaves a request under way
/// whenever a monitor waited and the limit is valid.
pub proof fn lemma_launch(batch: BatchView, limit: Concurrency)
    requires
        batch.wf(),
    ensures
        batch.starting(limit) <= batch.waiting(),
        batch.launch(limit).wf(),
        batch.launch(limit).monitors == batch.monitors,
        batch.launch(limit).waiting() == batch.waiting() - batch.starting(limit),
        batch.launch(limit).in_flight() == batch.in_flight() + batch.starting(limit),
        batch.launch(limit).failures() == batch.failures(),
        batch.launch(limit).assembled() == batch.assembled(),
        batch.launch(limit).first_error() == batch.first_error(),
        survivors(batch.launch(limit).slots) == survivors(batch.slots),
        limit.admits(batch.in_flight()) ==> limit.admits(batch.launch(limit).in_flight()),
        limit.valid() && batch.waiting() > 0 ==> batch.launch(limit).in_flight() > 0,
        batch.requests(limit).len() == batch.starting(limit),
        forall|k: int|
            0 <= k < batch.requests(limit).len() ==> {
                &&& 0 <= (#[trigger] batch.requests(limit)[k]).index < batch.len()
                &&& batch.slots[batch.requests(limit)[k].index] is Waiting
                &&& batch.launch(limit).slots[batch.requests(limit)[k].index] is InFlight
            },
{
    lemma_waiting_suffix(batch);
    lemma_start_next(batch, batch.starting(limit));
}

/// What `record` does to a well-formed batch when it takes the answer: one fetch
/// fewer is under way and one more slot is settled.
pub proof fn lemma_record(batch: BatchView, index: int, reply: SnapshotReplyView)
    requires
        batch.wf(),
        batch.accepts(index),
    ensures
        batch.record(index, reply).wf(),
        batch.record(index, reply).monitors == batch.monitors,
        batch.record(index, reply).waiting() == batch.waiting(),
        batch.record(index, reply).in_flight() == batch.in_flight() - 1,
        batch.record(index, reply).slots[index].settled(),
{
    let slot = batch.outcome(index, reply);
    lemma_count_update(batch.slots, index, slot, SlotKind::Waiting);
    lemma_count_update(batch.slots, index, slot, SlotKind::InFlight);
}

/// In a batch whose fetches have all ended, every monitor gave a picture or failed.
pub proof fn lemma_complete_accounts(batch: BatchView)
    requires
        batch.complete(),
    ensures
        batch.assembled().len() + batch.failures() == batch.len(),
        forall|i: int| 0 <= i < batch.slots.len() ==> (#[trigger] batch.slots[i]).settled(),
{
    lemma_count_total(batch.slots);
    lemma_assembled_len(batch.slots);
    lemma_count_zero(batch.slots, SlotKind::Waiting);
    lemma_count_zero(batch.slots, SlotKind::InFlight);
}

/// A batch has a first error exactly when a fetch failed.
pub proof fn lemma_first_error_some(slots: Seq<SlotView>)
    ensures
        first_error(slots) is Some <==> count(slots, SlotKind::Failed) > 0,
    decreases slots.len(),
{
    if slots.len() > 0 {
        lemma_first_error_some(slots.drop_last());
    }
}

} // verus!
