//! What holds of every relay, whatever events reach it.

use crate::armed::ArmedState;
use crate::batch::BatchView;
use crate::batch_laws::{
    lemma_complete_accounts, lemma_first_error_some, lemma_fresh, lemma_launch, lemma_record,
    lemma_waiting_suffix,
};
use crate::command::{lemma_armed_state_holds, Command};
use crate::error::RelayError;
use crate::relay::{ActionView, EventView, Outcome, Phase, RelayPolicy, RelayView, Trigger};
use crate::shinobi::{listed, ListReplyView, SnapshotReplyView};
use crate::sink::Delivery;
use vstd::prelude::*;

verus! {

/// Every step leaves a well-formed relay well-formed.
pub proof fn lemma_step_preserves_wf(relay: RelayView, event: EventView)
    requires
        relay.wf(),
    ensures
        relay.step(event).0.wf(),
        relay.step(event).0.policy == relay.policy,
{
    let limit = relay.policy.concurrency;
    match relay.phase {
        Phase::Enumerate => {
            if let EventView::MonitorsListed { list } = event {
                if let Ok(ids) = listed(list) {
                    if ids.len() > 0 {
                        lemma_fresh(ids);
                        lemma_launch(BatchView::fresh(ids), limit);
                    }
                }
            }
        },
        Phase::Fetch => {
            if let EventView::SnapshotFetched { index, reply } = event {
                if relay.batch.accepts(index) {
                    lemma_record(relay.batch, index, reply);
                    lemma_launch(relay.batch.record(index, reply), limit);
                }
            }
        },
        _ => {},
    }
}

/// A series of events leaves a well-formed relay well-formed, and asks for one action
/// per event.
pub proof fn lemma_run_preserves_wf(relay: RelayView, events: Seq<EventView>)
    requires
        relay.wf(),
    ensures
        relay.run(events).wf(),
        relay.run(events).policy == relay.policy,
        relay.actions(events).len() == events.len(),
    decreases events.len(),
{
    if events.len() > 0 {
        lemma_run_preserves_wf(relay, events.drop_last());
        lemma_step_preserves_wf(relay.run(events.drop_last()), events.last());
    }
}

/// A relay that has ended stays as it is, and answers every later event with its
/// outcome.
pub proof fn lemma_done_is_final(relay: RelayView, events: Seq<EventView>)
    requires
        relay.phase == Phase::Done,
    ensures
        relay.run(events) == relay,
        relay.actions(events).len() == events.len(),
        forall|k: int|
            0 <= k < events.len() ==> #[trigger] relay.actions(events)[k] == (ActionView::Finish {
                outcome: relay.outcome->Some_0,
            }),
    decreases events.len(),
{
    if events.len() > 0 {
        lemma_done_is_final(relay, events.drop_last());
    }
}

/// An alarm that comes while armed ends the relay at once as `Suppressed`: the relay
/// asks nothing of the surveillance server, then or later.
pub proof fn lemma_armed_alarm_asks_nothing(policy: RelayPolicy, later: Seq<EventView>)
    ensures
        ({
            let alarm = EventView::Triggered { trigger: Trigger::Alarm, armed: ArmedState::Armed };
            let (ended, action) = RelayView::ready(policy).step(alarm);
            &&& action == ActionView::Finish { outcome: Outcome::Suppressed }
            &&& Outcome::Suppressed.succeeded()
            &&& ended.actions(later).len() == later.len()
            &&& forall|k: int|
                0 <= k < later.len() ==> !(#[trigger] ended.actions(later)[k]).asks_server()
        }),
{
    let alarm = EventView::Triggered { trigger: Trigger::Alarm, armed: ArmedState::Armed };
    lemma_done_is_final(RelayView::ready(policy).step(alarm).0, later);
}

/// From the command that arms the bot until a command that disarms it, every alarm is
/// held back without a word to the surveillance server, while a relay that an
/// operator asks for still starts.
pub proof fn lemma_armed_bot_holds_back_alarms(
    state: ArmedState,
    commands: Seq<Command>,
    policy: RelayPolicy,
    later: Seq<EventView>,
)
    requires
        forall|i: int| 0 <= i < commands.len() ==> commands[i] != Command::Disarm,
    ensures
        ({
            let armed = state.after(Command::Arm).after_all(commands);
            let alarm = EventView::Triggered { trigger: Trigger::Alarm, armed };
            let manual = EventView::Triggered { trigger: Trigger::Manual, armed };
            let (ended, action) = RelayView::ready(policy).step(alarm);
            &&& armed == ArmedState::Armed
            &&& action == ActionView::Finish { outcome: Outcome::Suppressed }
            &&& forall|k: int|
                0 <= k < later.len() ==> !(#[trigger] ended.actions(later)[k]).asks_server()
            &&& RelayView::ready(policy).step(manual).1 == ActionView::ListMonitors
        }),
{
    lemma_armed_state_holds(state, commands);
    lemma_armed_alarm_asks_nothing(policy, later);
}

/// A relay starts by asking for the monitor list whenever an operator asks for it,
/// armed or not, and whenever an alarm comes while disarmed.
pub proof fn lemma_relay_starts(policy: RelayPolicy, trigger: Trigger, armed: ArmedState)
    requires
        trigger == Trigger::Manual || armed == ArmedState::Disarmed,
    ensures
        RelayView::ready(policy).step(EventView::Triggered { trigger, armed }).1
            == ActionView::ListMonitors,
        RelayView::ready(policy).step(EventView::Triggered { trigger, armed }).0.phase
            == Phase::Enumerate,
{
}

/// When the monitor list cannot be had, the relay ends at once with the error of the
/// list request and never asks for a picture, whatever happens later.
pub proof fn lemma_failed_enumerate_never_fetches(
    relay: RelayView,
    reply: ListReplyView,
    later: Seq<EventView>,
)
    requires
        relay.phase == Phase::Enumerate,
        listed(reply) is Err,
    ensures
        ({
            let (ended, action) = relay.step(EventView::MonitorsListed { list: reply });
            let outcome = Outcome::EnumerateFailed { error: listed(reply)->Err_0 };
            &&& action == ActionView::Finish { outcome }
            &&& !outcome.succeeded()
            &&& ended.actions(later).len() == later.len()
            &&& forall|k: int|
                0 <= k < later.len() ==> !(#[trigger] ended.actions(later)[k]).asks_server()
        }),
{
    lemma_done_is_final(relay.step(EventView::MonitorsListed { list: reply }).0, later);
}

/// The chat sink is handed a batch only when every fetch has ended, and then the
/// batch holds at least one picture: the pictures of the batch, in list order.
pub proof fn lemma_deliver_is_complete_and_not_empty(relay: RelayView, event: EventView)
    requires
        relay.wf(),
    ensures
        relay.step(event).1 matches ActionView::Deliver { images } ==> {
            &&& images.len() > 0
            &&& relay.phase == Phase::Fetch
            &&& relay.step(event).0.phase == Phase::Deliver
            &&& relay.step(event).0.batch.complete()
            &&& images == relay.step(event).0.batch.assembled()
        },
{
}

/// When the last fetch of a batch ends and every fetch has failed, the relay ends in
/// failure with the number of failures and the first error, and hands nothing to the
/// chat sink.
pub proof fn lemma_all_failed_is_failure(relay: RelayView, index: int, reply: SnapshotReplyView)
    requires
        relay.wf(),
        relay.phase == Phase::Fetch,
        relay.batch.accepts(index),
        ({
            let settled = relay.batch.record(index, reply).launch(relay.policy.concurrency);
            settled.complete() && settled.failures() == settled.len()
        }),
    ensures
        ({
            let settled = relay.batch.record(index, reply).launch(relay.policy.concurrency);
            let (ended, action) = relay.step(EventView::SnapshotFetched { index, reply });
            &&& action matches ActionView::Finish { outcome }
            &&& outcome == Outcome::NothingToSend {
                failed: settled.len() as usize,
                first_error: settled.first_error(),
            }
            &&& settled.first_error() is Some
            &&& !outcome.succeeded()
            &&& outcome.failure() == Some(RelayError::NothingToSend)
            &&& ended.phase == Phase::Done
        }),
{
    let settled = relay.batch.record(index, reply).launch(relay.policy.concurrency);
    lemma_record(relay.batch, index, reply);
    lemma_launch(relay.batch.record(index, reply), relay.policy.concurrency);
    lemma_complete_accounts(settled);
    lemma_first_error_some(settled.slots);
}

/// When the last fetch of a batch ends and a picture has come, the relay hands the
/// chat sink as many pictures as fetches succeeded: the monitors less the failures.
pub proof fn lemma_survivors_are_delivered(relay: RelayView, index: int, reply: SnapshotReplyView)
    requires
        relay.wf(),
        relay.phase == Phase::Fetch,
        relay.batch.accepts(index),
        ({
            let settled = relay.batch.record(index, reply).launch(relay.policy.concurrency);
            settled.complete() && settled.failures() < settled.len()
        }),
    ensures
        ({
            let settled = relay.batch.record(index, reply).launch(relay.policy.concurrency);
            let (next, action) = relay.step(EventView::SnapshotFetched { index, reply });
            &&& action == ActionView::Deliver { images: settled.assembled() }
            &&& settled.assembled().len() == settled.len() - settled.failures()
            &&& next.phase == Phase::Deliver
            &&& forall|delivery: Delivery|
                delivery is Delivered ==> #[trigger] next.step(
                    EventView::BatchSent { delivery },
                ).1 == (ActionView::Finish {
                    outcome: Outcome::Delivered {
                        images: settled.assembled().len() as usize,
                        dropped: settled.failures() as usize,
                    },
                })
        }),
{
    let settled = relay.batch.record(index, reply).launch(relay.policy.concurrency);
    lemma_record(relay.batch, index, reply);
    lemma_launch(relay.batch.record(index, reply), relay.policy.concurrency);
    lemma_complete_accounts(settled);
}

/// A relay that waits for its trigger is well-formed under any policy whose
/// concurrency limit is valid.
pub proof fn lemma_ready_is_wf(policy: RelayPolicy)
    requires
        policy.concurrency.valid(),
    ensures
        RelayView::ready(policy).wf(),
{
    lemma_fresh(Seq::empty());
}

/// Whatever happens, a relay never has more fetches under way than its policy
/// allows, and while it fetches at least one is under way.
pub proof fn lemma_fetches_stay_within_limit(policy: RelayPolicy, events: Seq<EventView>)
    requires
        policy.concurrency.valid(),
    ensures
        policy.concurrency.admits(RelayView::ready(policy).run(events).batch.in_flight()),
        RelayView::ready(policy).run(events).phase == Phase::Fetch ==> RelayView::ready(
            policy,
        ).run(events).batch.in_flight() > 0,
{
    lemma_ready_is_wf(policy);
    lemma_run_preserves_wf(RelayView::ready(policy), events);
}

/// Each picture is asked for once: a request goes out only for a monitor that still
/// waits, and a monitor that has been asked for never waits again.
pub proof fn lemma_single_attempt(relay: RelayView, event: EventView)
    requires
        relay.wf(),
    ensures
        relay.step(event).0.batch.monitors == relay.batch.monitors || relay.phase
            == Phase::Enumerate,
        relay.phase == Phase::Fetch ==> forall|i: int|
            0 <= i < relay.batch.slots.len() && !((#[trigger] relay.batch.slots[i]) is Waiting)
                ==> !(relay.step(event).0.batch.slots[i] is Waiting),
        relay.step(event).1 matches ActionView::Fetch { requests } ==> forall|k: int|
            0 <= k < requests.len() ==> {
                &&& 0 <= (#[trigger] requests[k]).index < relay.step(event).0.batch.len()
                &&& relay.step(event).0.batch.slots[requests[k].index] is InFlight
                &&& relay.step(event).0.batch.monitors[requests[k].index]
                    == requests[k].monitor_id
                &&& relay.phase == Phase::Fetch ==> relay.batch.slots[requests[k].index] is Waiting
            },
{
    let limit = relay.policy.concurrency;
    match relay.phase {
        Phase::Enumerate => {
            if let EventView::MonitorsListed { list } = event {
                if let Ok(ids) = listed(list) {
                    if ids.len() > 0 {
                        lemma_fresh(ids);
                        lemma_launch(BatchView::fresh(ids), limit);
                        lemma_waiting_suffix(BatchView::fresh(ids));
                    }
                }
            }
        },
        Phase::Fetch => {
            if let EventView::SnapshotFetched { index, reply } = event {
                if relay.batch.accepts(index) {
                    let recorded = relay.batch.record(index, reply);
                    lemma_record(relay.batch, index, reply);
                    lemma_launch(recorded, limit);
                    lemma_waiting_suffix(recorded);
                    lemma_waiting_suffix(relay.batch);
                }
            }
        },
        _ => {},
    }
}

/// A relay succeeds only where it has the right to: with pictures delivered from a
/// complete batch that holds at least one, with an alarm held back before anything was
/// asked, or with an empty list under a policy that counts it as a success. Sending
/// nothing is never a success by itself.
pub proof fn lemma_success_is_earned(policy: RelayPolicy, events: Seq<EventView>)
    requires
        policy.concurrency.valid(),
    ensures
        ({
            let relay = RelayView::ready(policy).run(events);
            let outcome = relay.outcome->Some_0;
            relay.outcome is Some && outcome.succeeded() ==> {
                ||| outcome is Delivered && relay.batch.complete() && relay.batch.assembled().len()
                    > 0
                ||| outcome is Suppressed && relay.batch.len() == 0
                ||| outcome is NoCameras && relay.batch.len() == 0 && policy.empty_list_succeeds
            }
        }),
{
    lemma_ready_is_wf(policy);
    lemma_run_preserves_wf(RelayView::ready(policy), events);
}

/// A sink that reports it sent nothing ends the relay in failure.
pub proof fn lemma_nothing_sent_is_no_success(relay: RelayView)
    requires
        relay.phase == Phase::Deliver,
    ensures
        ({
            let sent = EventView::BatchSent { delivery: Delivery::NothingSent };
            &&& relay.step(sent).1 == ActionView::Finish { outcome: relay.nothing_to_send() }
            &&& !relay.nothing_to_send().succeeded()
            &&& relay.nothing_to_send().failure() == Some(RelayError::NothingToSend)
        }),
{
}

/// The number of deliveries among a series of actions.
pub open spec fn deliveries(actions: Seq<ActionView>) -> nat
    decreases actions.len(),
{
    if actions.len() == 0 {
        0
    } else {
        deliveries(actions.drop_last()) + if actions.last() is Deliver {
            1nat
        } else {
            0nat
        }
    }
}

/// A relay hands a batch to the chat sink at most once: never before its fetches
/// have ended, and exactly once by the time it waits for the sink.
pub proof fn lemma_delivers_at_most_once(policy: RelayPolicy, events: Seq<EventView>)
    requires
        policy.concurrency.valid(),
    ensures
        deliveries(RelayView::ready(policy).actions(events)) <= 1,
        RelayView::ready(policy).run(events).phase == Phase::Deliver ==> deliveries(
            RelayView::ready(policy).actions(events),
        ) == 1,
        RelayView::ready(policy).run(events).phase != Phase::Deliver && RelayView::ready(
            policy,
        ).run(events).phase != Phase::Done ==> deliveries(
            RelayView::ready(policy).actions(events),
        ) == 0,
    decreases events.len(),
{
    let start = RelayView::ready(policy);
    lemma_ready_is_wf(policy);
    if events.len() > 0 {
        let before = start.run(events.drop_last());
        lemma_delivers_at_most_once(policy, events.drop_last());
        lemma_run_preserves_wf(start, events.drop_last());
        lemma_step_preserves_wf(before, events.last());
        lemma_deliver_is_complete_and_not_empty(before, events.last());
        assert(start.actions(events).drop_last() =~= start.actions(events.drop_last()));
        assert(start.actions(events).last() == before.step(events.last()).1);
        assert(start.run(events) == before.step(events.last()).0);
    } else {
        assert(start.actions(events) =~= Seq::empty());
    }
}

} // verus!
