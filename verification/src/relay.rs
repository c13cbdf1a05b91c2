//! The photo relay pipeline: list the monitors, fetch every picture, put the pictures
//! together in list order, deliver them as one batch.
//!
//! A relay is a state machine. The caller performs each action the relay asks for and
//! hands back what happened as an event; the relay decides what comes next.
//! `RelayView::step` is the whole of its behaviour, and `Relay::step` computes it.

use crate::armed::ArmedState;
use crate::batch::{
    request_views, BatchView, Concurrency, FetchRequest, FetchRequestView, RelayBatch,
};
use crate::batch_laws::lemma_fresh;
use crate::error::RelayError;
use crate::monitor::{monitor_ids, snapshot_views, Monitor, Snapshot, SnapshotView};
use crate::relay_laws::lemma_step_preserves_wf;
use crate::shinobi::{listed, ListReply, ListReplyView, SnapshotReply, SnapshotReplyView};
use crate::sink::Delivery;
use vstd::prelude::*;

verus! {

/// What asked for a relay.
#[derive(Clone, Copy, Debug, PartialEq, Eq, Hash, Structural)]
pub enum Trigger {
    /// The surveillance server's alarm, over the inbound HTTP endpoint.
    Alarm,
    /// An operator's command in the chat.
    Manual,
}

/// The choices a deployment makes for its relays.
#[derive(Clone, Copy, Debug, PartialEq, Eq, Structural)]
pub struct RelayPolicy {
    /// How many fetches may run at once.
    pub concurrency: Concurrency,
    /// Whether a server that lists no monitor counts as a success.
    pub empty_list_succeeds: bool,
}

impl Default for RelayPolicy {
    /// As many fetches at once as there are monitors; no monitors is no success.
    fn default() -> (policy: Self)
        ensures
            policy == (RelayPolicy {
                concurrency: Concurrency::Unbounded,
                empty_list_succeeds: false,
            }),
            policy.concurrency.valid(),
    {
        RelayPolicy { concurrency: Concurrency::Unbounded, empty_list_succeeds: false }
    }
}

/// Where a relay stands.
#[derive(Clone, Copy, Debug, PartialEq, Eq, Hash, Structural)]
pub enum Phase {
    /// Not triggered yet.
    Ready,
    /// The monitor list has been asked for.
    Enumerate,
    /// Pictures are being fetched.
    Fetch,
    /// The batch has been handed to the chat sink.
    Deliver,
    /// The relay has ended.
    Done,
}

/// How a relay ended.
#[derive(Clone, Copy, Debug, PartialEq, Eq)]
pub enum Outcome {
    /// `images` pictures reached the chat; `dropped` monitors gave none.
    Delivered { images: usize, dropped: usize },
    /// The alarm came while armed: nothing was asked of the surveillance server.
    Suppressed,
    /// The server listed no monitor, and the policy counts that as a success.
    NoCameras,
    /// The monitor list could not be had.
    EnumerateFailed { error: RelayError },
    /// No picture was left to send: `failed` fetches failed, the first of them, in
    /// list order, with `first_error`.
    NothingToSend { failed: usize, first_error: Option<RelayError> },
    /// The chat platform refused the batch after `sent` of its `images` pictures.
    DeliveryFailed { sent: usize, images: usize },
}

impl Outcome {
    /// A relay succeeded when its pictures reached the chat, or when there was rightly
    /// nothing to do.
    pub open spec fn succeeded(self) -> bool {
        self is Delivered || self is Suppressed || self is NoCameras
    }

    /// The error a failed relay ended with; none for a relay that succeeded.
    pub open spec fn failure(self) -> Option<RelayError> {
        match self {
            Outcome::Delivered { .. } => None,
            Outcome::Suppressed => None,
            Outcome::NoCameras => None,
            Outcome::EnumerateFailed { error } => Some(error),
            Outcome::NothingToSend { .. } => Some(RelayError::NothingToSend),
            Outcome::DeliveryFailed { .. } => Some(RelayError::ChatDeliveryError),
        }
    }

    /// Whether the relay succeeded.
    pub fn is_success(&self) -> (yes: bool)
        ensures
            yes == self.succeeded(),
            yes == (self.failure() is None),
    {
        match self {
            Outcome::Delivered { .. } => true,
            Outcome::Suppressed => true,
            Outcome::NoCameras => true,
            _ => false,
        }
    }

    /// The error a failed relay ended with.
    pub fn error(&self) -> (error: Option<RelayError>)
        ensures
            error == self.failure(),
    {
        match self {
            Outcome::Delivered { .. } => None,
            Outcome::Suppressed => None,
            Outcome::NoCameras => None,
            Outcome::EnumerateFailed { error } => Some(*error),
            Outcome::NothingToSend { .. } => Some(RelayError::NothingToSend),
            Outcome::DeliveryFailed { .. } => Some(RelayError::ChatDeliveryError),
        }
    }
}

/// What happened outside the relay.
#[derive(Debug, PartialEq, Eq)]
pub enum Event {
    /// A relay was asked for while the armed state was `armed`.
    Triggered { trigger: Trigger, armed: ArmedState },
    /// The request for the monitor list came back.
    MonitorsListed { list: ListReply },
    /// The request for the picture of the monitor at `index` came back.
    SnapshotFetched { index: usize, reply: SnapshotReply },
    /// The chat sink is through with the batch.
    BatchSent { delivery: Delivery },
}

/// An `Event` as plain mathematical values.
pub enum EventView {
    Triggered { trigger: Trigger, armed: ArmedState },
    MonitorsListed { list: ListReplyView },
    SnapshotFetched { index: int, reply: SnapshotReplyView },
    BatchSent { delivery: Delivery },
}

impl View for Event {
    type V = EventView;

    open spec fn view(&self) -> EventView {
        match *self {
            Event::Triggered { trigger, armed } => EventView::Triggered { trigger, armed },
            Event::MonitorsListed { list } => EventView::MonitorsListed { list: list@ },
            Event::SnapshotFetched { index, reply } => EventView::SnapshotFetched {
                index: index as int,
                reply: reply@,
            },
            Event::BatchSent { delivery } => EventView::BatchSent { delivery },
        }
    }
}

/// What the relay asks its caller to do next.
#[derive(Debug, PartialEq, Eq)]
pub enum Action {
    /// Ask the surveillance server for the monitor list.
    ListMonitors,
    /// Start these picture requests now, all of them.
    Fetch { requests: Vec<FetchRequest> },
    /// Start nothing; requests are still under way.
    Wait,
    /// Hand these pictures to the chat sink, once.
    Deliver { images: Vec<Snapshot> },
    /// The relay has ended with this outcome.
    Finish { outcome: Outcome },
    /// The event does not belong to the relay's phase and was dropped.
    Ignored,
}

/// An `Action` as plain mathematical values.
pub enum ActionView {
    ListMonitors,
    Fetch { requests: Seq<FetchRequestView> },
    Wait,
    Deliver { images: Seq<SnapshotView> },
    Finish { outcome: Outcome },
    Ignored,
}

impl View for Action {
    type V = ActionView;

    open spec fn view(&self) -> ActionView {
        match *self {
            Action::ListMonitors => ActionView::ListMonitors,
            Action::Fetch { requests } => ActionView::Fetch { requests: request_views(requests@) },
            Action::Wait => ActionView::Wait,
            Action::Deliver { images } => ActionView::Deliver { images: snapshot_views(images@) },
            Action::Finish { outcome } => ActionView::Finish { outcome },
            Action::Ignored => ActionView::Ignored,
        }
    }
}

impl ActionView {
    /// Whether the action asks anything of the surveillance server.
    pub open spec fn asks_server(self) -> bool {
        self is ListMonitors || self is Fetch
    }
}

/// A relay as plain mathematical values.
pub struct RelayView {
    pub policy: RelayPolicy,
    pub phase: Phase,
    pub batch: BatchView,
    pub outcome: Option<Outcome>,
}

impl RelayView {
    /// A relay that has not been triggered.
    pub open spec fn ready(policy: RelayPolicy) -> RelayView {
        RelayView {
            policy,
            phase: Phase::Ready,
            batch: BatchView::fresh(Seq::empty()),
            outcome: None,
        }
    }

    /// What holds of a relay at every moment: its batch is well-formed and within the
    /// concurrency limit; while it fetches, a request is under way; it delivers only a
    /// complete batch that holds a picture; it has an outcome exactly when it is done,
    /// and a success only where `earned` allows one.
    pub open spec fn wf(self) -> bool {
        &&& self.policy.concurrency.valid()
        &&& self.batch.wf()
        &&& self.policy.concurrency.admits(self.batch.in_flight())
        &&& self.phase == Phase::Done <==> self.outcome is Some
        &&& self.phase == Phase::Ready || self.phase == Phase::Enumerate ==> self.batch.len() == 0
        &&& self.phase == Phase::Fetch ==> self.batch.in_flight() > 0
        &&& self.phase == Phase::Deliver ==> self.batch.complete() && self.batch.assembled().len()
            > 0
        &&& self.outcome matches Some(outcome) ==> self.earned(outcome)
    }

    /// When an outcome is rightly a success: pictures count as delivered only for a
    /// complete batch that holds one; an alarm is suppressed, and a list is empty,
    /// only before anything was fetched; and an empty list succeeds only where the
    /// policy says so.
    pub open spec fn earned(self, outcome: Outcome) -> bool {
        match outcome {
            Outcome::Delivered { .. } => self.batch.complete() && self.batch.assembled().len()
                > 0,
            Outcome::Suppressed => self.batch.len() == 0,
            Outcome::NoCameras => self.batch.len() == 0 && self.policy.empty_list_succeeds,
            _ => true,
        }
    }

    /// The relay, ended with `outcome`.
    pub open spec fn finish(self, outcome: Outcome) -> (RelayView, ActionView) {
        (
            RelayView { phase: Phase::Done, outcome: Some(outcome), ..self },
            ActionView::Finish { outcome },
        )
    }

    /// The outcome of a relay that has no picture to send.
    pub open spec fn nothing_to_send(self) -> Outcome {
        Outcome::NothingToSend {
            failed: self.batch.failures() as usize,
            first_error: self.batch.first_error(),
        }
    }

    /// The outcome of a relay whose batch the chat sink is through with.
    pub open spec fn concluded(self, delivery: Delivery) -> Outcome {
        match delivery {
            Delivery::Delivered { .. } => Outcome::Delivered {
                images: self.batch.assembled().len() as usize,
                dropped: self.batch.failures() as usize,
            },
            Delivery::Failed { sent } => Outcome::DeliveryFailed {
                sent,
                images: self.batch.assembled().len() as usize,
            },
            Delivery::NothingSent => self.nothing_to_send(),
        }
    }

    /// A trigger starts the relay, unless it is an alarm that comes while armed.
    pub open spec fn on_trigger(self, trigger: Trigger, armed: ArmedState) -> (
        RelayView,
        ActionView,
    ) {
        if trigger == Trigger::Alarm && armed == ArmedState::Armed {
            self.finish(Outcome::Suppressed)
        } else {
            (RelayView { phase: Phase::Enumerate, ..self }, ActionView::ListMonitors)
        }
    }

    /// Without a monitor list the relay ends at once. With one, it starts as many
    /// fetches as the concurrency limit allows.
    pub open spec fn on_monitors(self, reply: ListReplyView) -> (RelayView, ActionView) {
        match listed(reply) {
            Err(error) => self.finish(Outcome::EnumerateFailed { error }),
            Ok(ids) => if ids.len() == 0 {
                if self.policy.empty_list_succeeds {
                    self.finish(Outcome::NoCameras)
                } else {
                    self.finish(Outcome::NothingToSend { failed: 0, first_error: None })
                }
            } else {
                let batch = BatchView::fresh(ids);
                (
                    RelayView {
                        phase: Phase::Fetch,
                        batch: batch.launch(self.policy.concurrency),
                        ..self
                    },
                    ActionView::Fetch { requests: batch.requests(self.policy.concurrency) },
                )
            },
        }
    }

    /// An answer is recorded under its monitor, and the next waiting fetches start.
    /// Only when every fetch has ended are the pictures put together: the batch goes
    /// to the chat sink if it holds a picture, and the relay fails if it holds none.
    pub open spec fn on_snapshot(self, index: int, reply: SnapshotReplyView) -> (
        RelayView,
        ActionView,
    ) {
        if !self.batch.accepts(index) {
            (self, ActionView::Ignored)
        } else {
            let recorded = self.batch.record(index, reply);
            let requests = recorded.requests(self.policy.concurrency);
            let next = RelayView { batch: recorded.launch(self.policy.concurrency), ..self };
            if !next.batch.complete() {
                if requests.len() > 0 {
                    (next, ActionView::Fetch { requests })
                } else {
                    (next, ActionView::Wait)
                }
            } else if next.batch.assembled().len() == 0 {
                next.finish(next.nothing_to_send())
            } else {
                (
                    RelayView { phase: Phase::Deliver, ..next },
                    ActionView::Deliver { images: next.batch.assembled() },
                )
            }
        }
    }

    /// The relay's next state and the action it asks for, given what happened.
    pub open spec fn step(self, event: EventView) -> (RelayView, ActionView) {
        match self.phase {
            Phase::Done => (self, ActionView::Finish { outcome: self.outcome->Some_0 }),
            Phase::Ready => match event {
                EventView::Triggered { trigger, armed } => self.on_trigger(trigger, armed),
                _ => (self, ActionView::Ignored),
            },
            Phase::Enumerate => match event {
                EventView::MonitorsListed { list } => self.on_monitors(list),
                _ => (self, ActionView::Ignored),
            },
            Phase::Fetch => match event {
                EventView::SnapshotFetched { index, reply } => self.on_snapshot(index, reply),
                _ => (self, ActionView::Ignored),
            },
            Phase::Deliver => match event {
                EventView::BatchSent { delivery } => self.finish(self.concluded(delivery)),
                _ => (self, ActionView::Ignored),
            },
        }
    }

    /// The relay after a series of events.
    pub open spec fn run(self, events: Seq<EventView>) -> RelayView
        decreases events.len(),
    {
        if events.len() == 0 {
            self
        } else {
            self.run(events.drop_last()).step(events.last()).0
        }
    }

    /// The actions the relay asks for over a series of events, one for each event.
    pub open spec fn actions(self, events: Seq<EventView>) -> Seq<ActionView>
        decreases events.len(),
    {
        if events.len() == 0 {
            Seq::empty()
        } else {
            self.actions(events.drop_last()).push(
                self.run(events.drop_last()).step(events.last()).1,
            )
        }
    }
}

/// The relay of one trigger.
#[derive(Debug)]
pub struct Relay {
    policy: RelayPolicy,
    phase: Phase,
    batch: RelayBatch,
    outcome: Option<Outcome>,
}

impl View for Relay {
    type V = RelayView;

    closed spec fn view(&self) -> RelayView {
        RelayView {
            policy: self.policy,
            phase: self.phase,
            batch: self.batch@,
            outcome: self.outcome,
        }
    }
}

impl Relay {
    /// The relay is well-formed as `RelayView::wf` says, and so is its batch.
    pub closed spec fn wf(&self) -> bool {
        self.batch.wf() && self@.wf()
    }

    /// A relay under `policy`, waiting for its trigger; `None` when the policy's
    /// concurrency limit would let no fetch run.
    pub fn new(policy: RelayPolicy) -> (relay: Option<Relay>)
        ensures
            relay is Some <==> policy.concurrency.valid(),
            relay matches Some(r) ==> r.wf() && r@ == RelayView::ready(policy),
    {
        if !policy.concurrency.is_valid() {
            return None;
        }
        let batch = RelayBatch::new(Vec::new());
        proof {
            assert(monitor_ids(Seq::<Monitor>::empty()) =~= Seq::empty());
            lemma_fresh(Seq::empty());
        }
        Some(Relay { policy, phase: Phase::Ready, batch, outcome: None })
    }

    /// Where the relay stands.
    pub fn phase(&self) -> (phase: Phase)
        ensures
            phase == self@.phase,
    {
        self.phase
    }

    /// How the relay ended, once it has.
    pub fn outcome(&self) -> (outcome: Option<Outcome>)
        ensures
            outcome == self@.outcome,
    {
        self.outcome
    }

    /// The number of fetches under way.
    pub fn in_flight(&self) -> (n: usize)
        requires
            self.wf(),
        ensures
            n == self@.batch.in_flight(),
            self@.policy.concurrency.admits(n as nat),
    {
        self.batch.in_flight()
    }

    fn finish(&mut self, outcome: Outcome) -> (action: Action)
        ensures
            (final(self)@, action@) == old(self)@.finish(outcome),
            final(self).batch == old(self).batch,
    {
        self.phase = Phase::Done;
        self.outcome = Some(outcome);
        Action::Finish { outcome }
    }

    fn nothing_to_send(&self) -> (outcome: Outcome)
        requires
            self.batch.wf(),
        ensures
            outcome == self@.nothing_to_send(),
    {
        Outcome::NothingToSend {
            failed: self.batch.failures(),
            first_error: self.batch.first_error(),
        }
    }

    /// Takes what happened and says what to do next.
    pub fn step(&mut self, event: Event) -> (action: Action)
        requires
            old(self).wf(),
        ensures
            final(self).wf(),
            (final(self)@, action@) == old(self)@.step(event@),
    {
        proof {
            lemma_step_preserves_wf(self@, event@);
        }
        let limit = self.policy.concurrency;
        match self.phase {
            Phase::Done => {
                match self.outcome {
                    Some(outcome) => Action::Finish { outcome },
                    None => Action::Ignored,
                }
            },
            Phase::Ready => match event {
                Event::Triggered { trigger, armed } => {
                    if trigger == Trigger::Alarm && armed == ArmedState::Armed {
                        self.finish(Outcome::Suppressed)
                    } else {
                        self.phase = Phase::Enumerate;
                        Action::ListMonitors
                    }
                },
                _ => Action::Ignored,
            },
            Phase::Enumerate => match event {
                Event::MonitorsListed { list } => {
                    match list.monitors() {
                        Err(error) => self.finish(Outcome::EnumerateFailed { error }),
                        Ok(monitors) => {
                            if monitors.len() == 0 {
                                if self.policy.empty_list_succeeds {
                                    self.finish(Outcome::NoCameras)
                                } else {
                                    self.finish(
                                        Outcome::NothingToSend { failed: 0, first_error: None },
                                    )
                                }
                            } else {
                                self.batch = RelayBatch::new(monitors);
                                let requests = self.batch.launch(limit);
                                self.phase = Phase::Fetch;
                                Action::Fetch { requests }
                            }
                        },
                    }
                },
                _ => Action::Ignored,
            },
            Phase::Fetch => match event {
                Event::SnapshotFetched { index, reply } => {
                    if !self.batch.record(index, reply) {
                        return Action::Ignored;
                    }
                    let requests = self.batch.launch(limit);
                    if !self.batch.is_complete() {
                        if requests.len() > 0 {
                            Action::Fetch { requests }
                        } else {
                            Action::Wait
                        }
                    } else {
                        let images = self.batch.assemble();
                        if images.len() == 0 {
                            let outcome = self.nothing_to_send();
                            self.finish(outcome)
                        } else {
                            self.phase = Phase::Deliver;
                            Action::Deliver { images }
                        }
                    }
                },
                _ => Action::Ignored,
            },
            Phase::Deliver => match event {
                Event::BatchSent { delivery } => {
                    let outcome = match delivery {
                        Delivery::Delivered { .. } => Outcome::Delivered {
                            images: self.batch.pictures(),
                            dropped: self.batch.failures(),
                        },
                        Delivery::Failed { sent } => Outcome::DeliveryFailed {
                            sent,
                            images: self.batch.pictures(),
                        },
                        Delivery::NothingSent => self.nothing_to_send(),
                    };
                    self.finish(outcome)
                },
                _ => Action::Ignored,
            },
        }
    }
}

} // verus!
