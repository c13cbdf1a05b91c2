//! One relay's batch: a slot per monitor, filled as the fetches come back.
//!
//! A slot's index is its monitor's position in the list the server gave. Pictures are
//! therefore put together in the list's order, whatever order the fetches finished in.

use crate::batch_laws::{
    lemma_assembled_len, lemma_count_all, lemma_count_total, lemma_count_update,
    lemma_first_error_prefix, lemma_start_next, lemma_waiting_suffix,
};
use crate::error::RelayError;
use crate::monitor::{monitor_ids, snapshot_views, Monitor, Snapshot, SnapshotView};
use crate::shinobi::{fetched, SnapshotReply, SnapshotReplyView};
use vstd::prelude::*;

verus! {

/// How many fetches may run at the same time.
#[derive(Clone, Copy, Debug, PartialEq, Eq, Structural)]
pub enum Concurrency {
    /// As many as there are monitors.
    Unbounded,
    /// No more than this many.
    AtMost(usize),
}

impl Concurrency {
    /// A limit is usable when it lets at least one fetch run.
    pub open spec fn valid(self) -> bool {
        self matches Concurrency::AtMost(n) ==> n > 0
    }

    /// Whether `running` fetches at once stay within the limit.
    pub open spec fn admits(self, running: nat) -> bool {
        self matches Concurrency::AtMost(n) ==> running <= n
    }

    /// How many of `waiting` fetches may start while `running` are under way.
    pub open spec fn allowance(self, running: nat, waiting: nat) -> nat {
        match self {
            Concurrency::Unbounded => waiting,
            Concurrency::AtMost(n) => {
                let room = if running >= n {
                    0
                } else {
                    (n - running) as nat
                };
                if waiting <= room {
                    waiting
                } else {
                    room
                }
            },
        }
    }

    /// Tells whether the limit lets at least one fetch run.
    pub fn is_valid(&self) -> (yes: bool)
        ensures
            yes == self.valid(),
    {
        match self {
            Concurrency::Unbounded => true,
            Concurrency::AtMost(n) => *n > 0,
        }
    }
}

/// The four states a slot can be in.
#[derive(Clone, Copy, Debug, PartialEq, Eq, Structural)]
pub enum SlotKind {
    /// Not asked for yet.
    Waiting,
    /// Asked for; no answer yet.
    InFlight,
    /// The picture came.
    Fetched,
    /// No picture came.
    Failed,
}

/// The state of one monitor's fetch.
#[derive(Debug, PartialEq, Eq)]
pub enum Slot {
    /// Not asked for yet.
    Waiting,
    /// Asked for; no answer yet.
    InFlight,
    /// The picture came.
    Fetched(Snapshot),
    /// No picture came, for this reason.
    Failed(RelayError),
}

/// A `Slot` as plain mathematical values.
pub enum SlotView {
    Waiting,
    InFlight,
    Fetched(SnapshotView),
    Failed(RelayError),
}

impl SlotView {
    /// Which of the four states the slot is in.
    pub open spec fn kind(self) -> SlotKind {
        match self {
            SlotView::Waiting => SlotKind::Waiting,
            SlotView::InFlight => SlotKind::InFlight,
            SlotView::Fetched(_) => SlotKind::Fetched,
            SlotView::Failed(_) => SlotKind::Failed,
        }
    }

    /// A slot is settled once its fetch has ended, well or badly.
    pub open spec fn settled(self) -> bool {
        self is Fetched || self is Failed
    }
}

impl View for Slot {
    type V = SlotView;

    open spec fn view(&self) -> SlotView {
        match *self {
            Slot::Waiting => SlotView::Waiting,
            Slot::InFlight => SlotView::InFlight,
            Slot::Fetched(picture) => SlotView::Fetched(picture@),
            Slot::Failed(error) => SlotView::Failed(error),
        }
    }
}

/// The views of a list of slots, in the list's order.
pub open spec fn slot_views(slots: Seq<Slot>) -> Seq<SlotView> {
    slots.map_values(|s: Slot| s@)
}

/// How many of `slots` are of the given kind.
pub open spec fn count(slots: Seq<SlotView>, kind: SlotKind) -> nat
    decreases slots.len(),
{
    if slots.len() == 0 {
        0
    } else {
        count(slots.drop_last(), kind) + if slots.last().kind() == kind {
            1nat
        } else {
            0nat
        }
    }
}

/// The pictures held by `slots`, in slot order.
pub open spec fn assembled(slots: Seq<SlotView>) -> Seq<SnapshotView>
    decreases slots.len(),
{
    if slots.len() == 0 {
        Seq::empty()
    } else {
        let before = assembled(slots.drop_last());
        match slots.last() {
            SlotView::Fetched(picture) => before.push(picture),
            _ => before,
        }
    }
}

/// The indices of the slots that hold a picture, in rising order.
pub open spec fn survivors(slots: Seq<SlotView>) -> Seq<int>
    decreases slots.len(),
{
    if slots.len() == 0 {
        Seq::empty()
    } else {
        let before = survivors(slots.drop_last());
        if slots.last() is Fetched {
            before.push(slots.len() - 1)
        } else {
            before
        }
    }
}

/// The error of the first failed slot, by slot order.
pub open spec fn first_error(slots: Seq<SlotView>) -> Option<RelayError>
    decreases slots.len(),
{
    if slots.len() == 0 {
        None
    } else {
        match first_error(slots.drop_last()) {
            Some(error) => Some(error),
            None => match slots.last() {
                SlotView::Failed(error) => Some(error),
                _ => None,
            },
        }
    }
}

/// A request for one monitor's picture.
#[derive(Debug, PartialEq, Eq)]
pub struct FetchRequest {
    /// The monitor's position in the list; the answer is recorded under it.
    pub index: usize,
    /// The monitor to ask for.
    pub monitor: Monitor,
}

/// A `FetchRequest` as plain mathematical values.
pub struct FetchRequestView {
    pub index: int,
    pub monitor_id: Seq<char>,
}

impl View for FetchRequest {
    type V = FetchRequestView;

    open spec fn view(&self) -> FetchRequestView {
        FetchRequestView { index: self.index as int, monitor_id: self.monitor@ }
    }
}

/// The views of a list of requests, in the list's order.
pub open spec fn request_views(requests: Seq<FetchRequest>) -> Seq<FetchRequestView> {
    requests.map_values(|r: FetchRequest| r@)
}

/// A batch as plain mathematical values: the monitors' identifiers and a slot for each.
pub struct BatchView {
    pub monitors: Seq<Seq<char>>,
    pub slots: Seq<SlotView>,
}

impl BatchView {
    /// A batch has one slot per monitor, a picture only under the monitor it came
    /// from, and takes up its monitors in list order.
    pub open spec fn wf(self) -> bool {
        &&& self.slots.len() == self.monitors.len()
        &&& forall|i: int|
            0 <= i < self.slots.len() ==> (#[trigger] self.slots[i] matches SlotView::Fetched(
                picture,
            ) ==> picture.monitor_id == self.monitors[i])
        &&& forall|i: int, j: int|
            0 <= i <= j < self.slots.len() && (#[trigger] self.slots[i]) is Waiting ==> (
            #[trigger] self.slots[j]) is Waiting
    }

    /// The batch at its start: every monitor waits.
    pub open spec fn fresh(monitors: Seq<Seq<char>>) -> BatchView {
        BatchView { monitors, slots: Seq::new(monitors.len(), |i: int| SlotView::Waiting) }
    }

    /// The number of monitors.
    pub open spec fn len(self) -> nat {
        self.slots.len()
    }

    /// The number of monitors not asked for yet.
    pub open spec fn waiting(self) -> nat {
        count(self.slots, SlotKind::Waiting)
    }

    /// The number of fetches under way.
    pub open spec fn in_flight(self) -> nat {
        count(self.slots, SlotKind::InFlight)
    }

    /// The number of fetches that failed.
    pub open spec fn failures(self) -> nat {
        count(self.slots, SlotKind::Failed)
    }

    /// The index of the first monitor that has not been asked for.
    pub open spec fn launched(self) -> int {
        self.slots.len() - self.waiting()
    }

    /// Every fetch has ended.
    pub open spec fn complete(self) -> bool {
        self.waiting() == 0 && self.in_flight() == 0
    }

    /// How many fetches `launch` starts under `limit`.
    pub open spec fn starting(self, limit: Concurrency) -> nat {
        limit.allowance(self.in_flight(), self.waiting())
    }

    /// The requests that `launch` hands out under `limit`: the next waiting monitors,
    /// in list order.
    pub open spec fn requests(self, limit: Concurrency) -> Seq<FetchRequestView> {
        Seq::new(
            self.starting(limit),
            |k: int|
                FetchRequestView {
                    index: self.launched() + k,
                    monitor_id: self.monitors[self.launched() + k],
                },
        )
    }

    /// The batch after the next `n` waiting fetches have started.
    pub open spec fn start_next(self, n: nat) -> BatchView {
        BatchView {
            monitors: self.monitors,
            slots: Seq::new(
                self.slots.len(),
                |i: int|
                    if self.launched() <= i < self.launched() + n {
                        SlotView::InFlight
                    } else {
                        self.slots[i]
                    },
            ),
        }
    }

    /// The batch after `launch` under `limit`.
    pub open spec fn launch(self, limit: Concurrency) -> BatchView {
        self.start_next(self.starting(limit))
    }

    /// An answer is taken for a slot that is in flight, and for no other.
    pub open spec fn accepts(self, index: int) -> bool {
        0 <= index < self.slots.len() && self.slots[index] is InFlight
    }

    /// What an answer turns the slot at `index` into.
    pub open spec fn outcome(self, index: int, reply: SnapshotReplyView) -> SlotView {
        match fetched(self.monitors[index], reply) {
            Ok(picture) => SlotView::Fetched(picture),
            Err(error) => SlotView::Failed(error),
        }
    }

    /// The batch after an answer for the slot at `index`.
    pub open spec fn record(self, index: int, reply: SnapshotReplyView) -> BatchView {
        if self.accepts(index) {
            BatchView {
                monitors: self.monitors,
                slots: self.slots.update(index, self.outcome(index, reply)),
            }
        } else {
            self
        }
    }

    /// The pictures that came, in the order of the monitor list.
    pub open spec fn assembled(self) -> Seq<SnapshotView> {
        assembled(self.slots)
    }

    /// The error of the first monitor, by list order, whose fetch failed.
    pub open spec fn first_error(self) -> Option<RelayError> {
        first_error(self.slots)
    }
}

/// The batch of one relay: the monitors the server listed and, for each, how its fetch
/// stands.
#[derive(Debug)]
pub struct RelayBatch {
    monitors: Vec<Monitor>,
    slots: Vec<Slot>,
    waiting: usize,
    in_flight: usize,
}

impl View for RelayBatch {
    type V = BatchView;

    closed spec fn view(&self) -> BatchView {
        BatchView { monitors: monitor_ids(self.monitors@), slots: slot_views(self.slots@) }
    }
}

impl RelayBatch {
    /// The batch is well-formed as `BatchView::wf` says, and knows how many of its
    /// slots wait and how many are in flight.
    pub closed spec fn wf(&self) -> bool {
        &&& self@.wf()
        &&& self.waiting == self@.waiting()
        &&& self.in_flight == self@.in_flight()
    }

    /// A batch for `monitors`, none of them asked for yet.
    pub fn new(monitors: Vec<Monitor>) -> (batch: Self)
        ensures
            batch.wf(),
            batch@ == BatchView::fresh(monitor_ids(monitors@)),
    {
        let total = monitors.len();
        let mut slots: Vec<Slot> = Vec::new();
        let mut i: usize = 0;
        while i < total
            invariant
                i <= total,
                slots.len() == i,
                forall|j: int| 0 <= j < i ==> slots[j] == Slot::Waiting,
            decreases total - i,
        {
            slots.push(Slot::Waiting);
            i += 1;
        }
        let batch = RelayBatch { monitors, slots, waiting: total, in_flight: 0 };
        proof {
            let fresh = BatchView::fresh(monitor_ids(monitors@));
            assert(batch@.slots =~= fresh.slots);
            lemma_count_all(fresh.slots, SlotKind::Waiting);
            lemma_count_total(fresh.slots);
        }
        batch
    }

    /// The number of monitors in the batch.
    pub fn len(&self) -> (n: usize)
        requires
            self.wf(),
        ensures
            n == self@.len(),
    {
        self.slots.len()
    }

    /// The number of monitors not asked for yet.
    pub fn waiting(&self) -> (n: usize)
        requires
            self.wf(),
        ensures
            n == self@.waiting(),
    {
        self.waiting
    }

    /// The number of fetches under way.
    pub fn in_flight(&self) -> (n: usize)
        requires
            self.wf(),
        ensures
            n == self@.in_flight(),
    {
        self.in_flight
    }

    /// Whether every fetch has ended.
    pub fn is_complete(&self) -> (yes: bool)
        requires
            self.wf(),
        ensures
            yes == self@.complete(),
    {
        self.waiting == 0 && self.in_flight == 0
    }

    /// Starts as many of the waiting fetches as `limit` allows, in list order, and
    /// returns the requests to make.
    pub fn launch(&mut self, limit: Concurrency) -> (requests: Vec<FetchRequest>)
        requires
            old(self).wf(),
        ensures
            final(self).wf(),
            final(self)@ == old(self)@.launch(limit),
            request_views(requests@) == old(self)@.requests(limit),
    {
        let ghost before = self@;
        proof {
            lemma_waiting_suffix(before);
            lemma_count_total(before.slots);
            lemma_start_next(before, 0);
        }
        let first = self.slots.len() - self.waiting;
        let quota: usize = match limit {
            Concurrency::Unbounded => self.waiting,
            Concurrency::AtMost(n) => {
                let room = if self.in_flight >= n {
                    0
                } else {
                    n - self.in_flight
                };
                if self.waiting <= room {
                    self.waiting
                } else {
                    room
                }
            },
        };
        let mut requests: Vec<FetchRequest> = Vec::new();
        let mut k: usize = 0;
        while k < quota
            invariant
                k <= quota <= before.waiting(),
                quota == before.starting(limit),
                first == before.launched(),
                before.wf(),
                before.waiting() + before.in_flight() <= before.slots.len(),
                self.slots.len() == before.slots.len(),
                self.monitors.len() == before.slots.len(),
                self@.monitors == before.monitors,
                self@.slots =~= before.start_next(k as nat).slots,
                self.waiting == before.waiting() - k,
                self.in_flight == before.in_flight() + k,
                request_views(requests@) =~= before.requests(limit).take(k as int),
            decreases quota - k,
        {
            let ghost requests_before = requests@;
            let ghost slots_before = self@.slots;
            let index = first + k;
            let monitor = self.monitors[index].clone();
            assert(monitor@ == before.monitors[index as int]);
            self.slots.set(index, Slot::InFlight);
            self.waiting = self.waiting - 1;
            self.in_flight = self.in_flight + 1;
            requests.push(FetchRequest { index, monitor });
            proof {
                assert(request_views(requests@) =~= request_views(requests_before).push(
                    before.requests(limit)[k as int],
                ));
                assert(self@.slots =~= slots_before.update(index as int, SlotView::InFlight));
            }
            k += 1;
        }
        proof {
            lemma_start_next(before, quota as nat);
            assert(before.requests(limit).take(quota as int) =~= before.requests(limit));
        }
        requests
    }

    /// Records the answer to the request for the monitor at `index`. An answer for a
    /// slot that is not in flight is dropped and changes nothing.
    pub fn record(&mut self, index: usize, reply: SnapshotReply) -> (accepted: bool)
        requires
            old(self).wf(),
        ensures
            final(self).wf(),
            accepted == old(self)@.accepts(index as int),
            final(self)@ == old(self)@.record(index as int, reply@),
    {
        if index >= self.slots.len() {
            return false;
        }
        let in_flight = match &self.slots[index] {
            Slot::InFlight => true,
            _ => false,
        };
        if !in_flight {
            return false;
        }
        let ghost before = self@;
        let slot = match self.monitors[index].get_photo(reply) {
            Ok(picture) => Slot::Fetched(picture),
            Err(error) => Slot::Failed(error),
        };
        assert(slot@ == before.outcome(index as int, reply@));
        proof {
            lemma_count_update(before.slots, index as int, slot@, SlotKind::Waiting);
            lemma_count_update(before.slots, index as int, slot@, SlotKind::InFlight);
        }
        self.slots.set(index, slot);
        self.in_flight = self.in_flight - 1;
        assert(self@.slots =~= before.slots.update(index as int, slot@));
        true
    }

    /// The pictures that came, in the order of the monitor list.
    pub fn assemble(&self) -> (pictures: Vec<Snapshot>)
        requires
            self.wf(),
        ensures
            snapshot_views(pictures@) == self@.assembled(),
    {
        let mut pictures: Vec<Snapshot> = Vec::new();
        let mut i: usize = 0;
        while i < self.slots.len()
            invariant
                i <= self.slots.len(),
                snapshot_views(pictures@) =~= assembled(self@.slots.take(i as int)),
            decreases self.slots.len() - i,
        {
            proof {
                assert(self@.slots.take(i + 1).drop_last() =~= self@.slots.take(i as int));
            }
            match &self.slots[i] {
                Slot::Fetched(picture) => {
                    pictures.push(picture.clone());
                },
                _ => {},
            }
            i += 1;
        }
        proof {
            assert(self@.slots.take(i as int) =~= self@.slots);
        }
        pictures
    }

    /// The number of slots of the given kind.
    fn tally(&self, kind: SlotKind) -> (n: usize)
        ensures
            n == count(self@.slots, kind),
    {
        let mut n: usize = 0;
        let mut i: usize = 0;
        while i < self.slots.len()
            invariant
                i <= self.slots.len(),
                n <= i,
                n == count(self@.slots.take(i as int), kind),
            decreases self.slots.len() - i,
        {
            proof {
                assert(self@.slots.take(i + 1).drop_last() =~= self@.slots.take(i as int));
            }
            let found = match &self.slots[i] {
                Slot::Waiting => SlotKind::Waiting,
                Slot::InFlight => SlotKind::InFlight,
                Slot::Fetched(_) => SlotKind::Fetched,
                Slot::Failed(_) => SlotKind::Failed,
            };
            if found == kind {
                n += 1;
            }
            i += 1;
        }
        proof {
            assert(self@.slots.take(i as int) =~= self@.slots);
        }
        n
    }

    /// The number of fetches that failed.
    pub fn failures(&self) -> (n: usize)
        requires
            self.wf(),
        ensures
            n == self@.failures(),
    {
        self.tally(SlotKind::Failed)
    }

    /// The number of pictures that came.
    pub fn pictures(&self) -> (n: usize)
        requires
            self.wf(),
        ensures
            n == self@.assembled().len(),
    {
        proof {
            lemma_assembled_len(self@.slots);
        }
        self.tally(SlotKind::Fetched)
    }

    /// The error of the first monitor, by list order, whose fetch failed.
    pub fn first_error(&self) -> (error: Option<RelayError>)
        requires
            self.wf(),
        ensures
            error == self@.first_error(),
    {
        let mut i: usize = 0;
        while i < self.slots.len()
            invariant
                i <= self.slots.len(),
                first_error(self@.slots.take(i as int)) is None,
            decreases self.slots.len() - i,
        {
            proof {
                assert(self@.slots.take(i + 1).drop_last() =~= self@.slots.take(i as int));
            }
            match &self.slots[i] {
                Slot::Failed(error) => {
                    proof {
                        lemma_first_error_prefix(self@.slots, i + 1);
                    }
                    return Some(*error);
                },
                _ => {},
            }
            i += 1;
        }
        proof {
            assert(self@.slots.take(i as int) =~= self@.slots);
        }
        None
    }
}

} // verus!
