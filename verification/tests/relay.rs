use camera_relay::armed::ArmedState;
use camera_relay::batch::{Concurrency, FetchRequest};
use camera_relay::error::RelayError;
use camera_relay::monitor::{Monitor, Snapshot};
use camera_relay::relay::{Action, Event, Outcome, Phase, Relay, RelayPolicy, Trigger};
use camera_relay::shinobi::{ListReply, SnapshotReply};
use camera_relay::sink::Delivery;

fn policy() -> RelayPolicy {
    RelayPolicy {
        concurrency: Concurrency::Unbounded,
        empty_list_succeeds: false,
    }
}

fn relay() -> Relay {
    Relay::new(policy()).unwrap()
}

fn manual() -> Event {
    Event::Triggered {
        trigger: Trigger::Manual,
        armed: ArmedState::Disarmed,
    }
}

fn listed(ids: &[&str]) -> Event {
    Event::MonitorsListed {
        list: ListReply::Answered {
            status: 200,
            monitors: Some(ids.iter().map(|id| Monitor::new(id.to_string())).collect()),
        },
    }
}

fn jpeg(index: usize, bytes: &[u8]) -> Event {
    Event::SnapshotFetched {
        index,
        reply: SnapshotReply::Answered {
            status: 200,
            body: bytes.to_vec(),
        },
    }
}

fn offline(index: usize) -> Event {
    Event::SnapshotFetched {
        index,
        reply: SnapshotReply::Answered {
            status: 500,
            body: Vec::new(),
        },
    }
}

fn timed_out(index: usize) -> Event {
    Event::SnapshotFetched {
        index,
        reply: SnapshotReply::Unreachable,
    }
}

fn request(index: usize, id: &str) -> FetchRequest {
    FetchRequest {
        index,
        monitor: Monitor::new(id.to_string()),
    }
}

fn picture(id: &str, bytes: &[u8]) -> Snapshot {
    Snapshot::new(id.to_string(), bytes.to_vec())
}

fn finish(outcome: Outcome) -> Action {
    Action::Finish { outcome }
}

#[test]
fn a_new_relay_is_ready() {
    let relay = relay();
    assert_eq!(relay.phase(), Phase::Ready);
    assert_eq!(relay.outcome(), None);
    assert_eq!(relay.in_flight(), 0);
}

#[test]
fn a_limit_of_zero_makes_no_relay() {
    let policy = RelayPolicy {
        concurrency: Concurrency::AtMost(0),
        empty_list_succeeds: false,
    };
    assert!(Relay::new(policy).is_none());
    let policy = RelayPolicy {
        concurrency: Concurrency::AtMost(1),
        empty_list_succeeds: true,
    };
    assert!(Relay::new(policy).is_some());
}

#[test]
fn two_monitors_one_offline_delivers_the_other() {
    let mut relay = relay();
    assert_eq!(relay.step(manual()), Action::ListMonitors);
    assert_eq!(relay.phase(), Phase::Enumerate);
    assert_eq!(
        relay.step(listed(&["cam1", "cam2"])),
        Action::Fetch {
            requests: vec![request(0, "cam1"), request(1, "cam2")]
        }
    );
    assert_eq!(relay.phase(), Phase::Fetch);
    assert_eq!(relay.step(jpeg(0, &[0xff, 0xd8, 0xff, 0xd9])), Action::Wait);
    assert_eq!(
        relay.step(offline(1)),
        Action::Deliver {
            images: vec![picture("cam1", &[0xff, 0xd8, 0xff, 0xd9])]
        }
    );
    assert_eq!(relay.phase(), Phase::Deliver);
    let outcome = Outcome::Delivered {
        images: 1,
        dropped: 1,
    };
    assert_eq!(
        relay.step(Event::BatchSent {
            delivery: Delivery::Delivered { images: 1 }
        }),
        finish(outcome)
    );
    assert_eq!(relay.phase(), Phase::Done);
    assert_eq!(relay.outcome(), Some(outcome));
    assert!(outcome.is_success());
    assert_eq!(outcome.error(), None);
}

#[test]
fn one_failure_in_three_delivers_the_two_survivors_in_order() {
    let mut relay = relay();
    relay.step(manual());
    relay.step(listed(&["north", "yard", "door"]));
    assert_eq!(relay.in_flight(), 3);
    assert_eq!(relay.step(jpeg(2, &[3, 3, 3])), Action::Wait);
    assert_eq!(relay.step(timed_out(1)), Action::Wait);
    assert_eq!(
        relay.step(jpeg(0, &[1])),
        Action::Deliver {
            images: vec![picture("north", &[1]), picture("door", &[3, 3, 3])]
        }
    );
    let ended = relay.step(Event::BatchSent {
        delivery: Delivery::Delivered { images: 2 },
    });
    assert_eq!(
        ended,
        finish(Outcome::Delivered {
            images: 2,
            dropped: 1
        })
    );
    assert!(relay.outcome().unwrap().is_success());
}

#[test]
fn every_fetch_failing_ends_in_failure_without_a_delivery() {
    let mut relay = relay();
    relay.step(manual());
    relay.step(listed(&["a", "b", "c"]));
    assert_eq!(relay.step(offline(1)), Action::Wait);
    assert_eq!(relay.step(timed_out(0)), Action::Wait);
    let outcome = Outcome::NothingToSend {
        failed: 3,
        first_error: Some(RelayError::UpstreamUnavailable),
    };
    assert_eq!(relay.step(offline(2)), finish(outcome));
    assert_eq!(relay.phase(), Phase::Done);
    assert!(!outcome.is_success());
    assert_eq!(outcome.error(), Some(RelayError::NothingToSend));
}

#[test]
fn an_alarm_while_armed_is_suppressed_and_asks_nothing() {
    let mut relay = relay();
    let alarm = Event::Triggered {
        trigger: Trigger::Alarm,
        armed: ArmedState::Armed,
    };
    assert_eq!(relay.step(alarm), finish(Outcome::Suppressed));
    assert_eq!(relay.phase(), Phase::Done);
    assert!(Outcome::Suppressed.is_success());
    assert_eq!(relay.step(listed(&["a"])), finish(Outcome::Suppressed));
    assert_eq!(relay.step(jpeg(0, &[1])), finish(Outcome::Suppressed));
    assert_eq!(relay.step(manual()), finish(Outcome::Suppressed));
}

#[test]
fn an_alarm_while_disarmed_starts_the_relay() {
    let mut relay = relay();
    let alarm = Event::Triggered {
        trigger: Trigger::Alarm,
        armed: ArmedState::Disarmed,
    };
    assert_eq!(relay.step(alarm), Action::ListMonitors);
}

#[test]
fn a_manual_relay_runs_while_armed() {
    let mut relay = relay();
    let command = Event::Triggered {
        trigger: Trigger::Manual,
        armed: ArmedState::Armed,
    };
    assert_eq!(relay.step(command), Action::ListMonitors);
    assert_eq!(
        relay.step(listed(&["a"])),
        Action::Fetch {
            requests: vec![request(0, "a")]
        }
    );
}

#[test]
fn a_failed_enumerate_ends_the_relay_and_never_fetches() {
    let mut relay = relay();
    relay.step(manual());
    let failed = Event::MonitorsListed {
        list: ListReply::Unreachable,
    };
    let outcome = Outcome::EnumerateFailed {
        error: RelayError::UpstreamUnavailable,
    };
    assert_eq!(relay.step(failed), finish(outcome));
    assert!(!outcome.is_success());
    assert_eq!(outcome.error(), Some(RelayError::UpstreamUnavailable));
    assert_eq!(relay.step(listed(&["a", "b"])), finish(outcome));
    assert_eq!(relay.step(jpeg(0, &[1])), finish(outcome));
    assert_eq!(relay.in_flight(), 0);
}

#[test]
fn a_malformed_list_is_a_protocol_error() {
    let mut relay = relay();
    relay.step(manual());
    let malformed = Event::MonitorsListed {
        list: ListReply::Answered {
            status: 200,
            monitors: None,
        },
    };
    assert_eq!(
        relay.step(malformed),
        finish(Outcome::EnumerateFailed {
            error: RelayError::UpstreamProtocolError
        })
    );
}

#[test]
fn no_monitors_is_nothing_to_send_by_default() {
    let mut relay = relay();
    relay.step(manual());
    let outcome = Outcome::NothingToSend {
        failed: 0,
        first_error: None,
    };
    assert_eq!(relay.step(listed(&[])), finish(outcome));
    assert!(!outcome.is_success());
}

#[test]
fn no_monitors_is_a_success_where_the_policy_says_so() {
    let mut relay = Relay::new(RelayPolicy {
        concurrency: Concurrency::Unbounded,
        empty_list_succeeds: true,
    })
    .unwrap();
    relay.step(manual());
    assert_eq!(relay.step(listed(&[])), finish(Outcome::NoCameras));
    assert!(Outcome::NoCameras.is_success());
}

#[test]
fn the_policy_for_no_monitors_does_not_excuse_failed_fetches() {
    let mut relay = Relay::new(RelayPolicy {
        concurrency: Concurrency::Unbounded,
        empty_list_succeeds: true,
    })
    .unwrap();
    relay.step(manual());
    relay.step(listed(&["a"]));
    assert_eq!(
        relay.step(offline(0)),
        finish(Outcome::NothingToSend {
            failed: 1,
            first_error: Some(RelayError::SnapshotUnavailable)
        })
    );
}

#[test]
fn fetches_start_as_the_limit_allows() {
    let mut relay = Relay::new(RelayPolicy {
        concurrency: Concurrency::AtMost(2),
        empty_list_succeeds: false,
    })
    .unwrap();
    relay.step(manual());
    assert_eq!(
        relay.step(listed(&["a", "b", "c", "d"])),
        Action::Fetch {
            requests: vec![request(0, "a"), request(1, "b")]
        }
    );
    assert_eq!(relay.in_flight(), 2);
    assert_eq!(
        relay.step(jpeg(1, &[2])),
        Action::Fetch {
            requests: vec![request(2, "c")]
        }
    );
    assert_eq!(relay.in_flight(), 2);
    assert_eq!(
        relay.step(offline(2)),
        Action::Fetch {
            requests: vec![request(3, "d")]
        }
    );
    assert_eq!(relay.step(jpeg(3, &[4])), Action::Wait);
    assert_eq!(relay.in_flight(), 1);
    assert_eq!(
        relay.step(jpeg(0, &[1])),
        Action::Deliver {
            images: vec![picture("a", &[1]), picture("b", &[2]), picture("d", &[4])]
        }
    );
    assert_eq!(relay.in_flight(), 0);
}

#[test]
fn events_out_of_phase_are_ignored() {
    let mut relay = relay();
    assert_eq!(relay.step(listed(&["a"])), Action::Ignored);
    assert_eq!(relay.step(jpeg(0, &[1])), Action::Ignored);
    assert_eq!(
        relay.step(Event::BatchSent {
            delivery: Delivery::NothingSent
        }),
        Action::Ignored
    );
    assert_eq!(relay.phase(), Phase::Ready);
    relay.step(manual());
    assert_eq!(relay.step(manual()), Action::Ignored);
    assert_eq!(relay.step(jpeg(0, &[1])), Action::Ignored);
    assert_eq!(relay.phase(), Phase::Enumerate);
    relay.step(listed(&["a", "b"]));
    assert_eq!(relay.step(listed(&["c"])), Action::Ignored);
    assert_eq!(relay.step(manual()), Action::Ignored);
    assert_eq!(relay.step(jpeg(2, &[1])), Action::Ignored);
    assert_eq!(relay.step(jpeg(0, &[1])), Action::Wait);
    assert_eq!(relay.step(jpeg(0, &[9])), Action::Ignored);
    assert_eq!(
        relay.step(jpeg(1, &[2])),
        Action::Deliver {
            images: vec![picture("a", &[1]), picture("b", &[2])]
        }
    );
    assert_eq!(relay.step(jpeg(1, &[2])), Action::Ignored);
    assert_eq!(relay.phase(), Phase::Deliver);
}

#[test]
fn a_refused_batch_is_a_delivery_failure() {
    let mut relay = relay();
    relay.step(manual());
    relay.step(listed(&["a", "b"]));
    relay.step(jpeg(0, &[1]));
    relay.step(jpeg(1, &[2]));
    let outcome = Outcome::DeliveryFailed { sent: 1, images: 2 };
    assert_eq!(
        relay.step(Event::BatchSent {
            delivery: Delivery::Failed { sent: 1 }
        }),
        finish(outcome)
    );
    assert!(!outcome.is_success());
    assert_eq!(outcome.error(), Some(RelayError::ChatDeliveryError));
}

#[test]
fn a_sink_that_sent_nothing_is_not_a_success() {
    let mut relay = relay();
    relay.step(manual());
    relay.step(listed(&["a", "b"]));
    relay.step(jpeg(0, &[1]));
    relay.step(offline(1));
    let outcome = Outcome::NothingToSend {
        failed: 1,
        first_error: Some(RelayError::SnapshotUnavailable),
    };
    assert_eq!(
        relay.step(Event::BatchSent {
            delivery: Delivery::NothingSent
        }),
        finish(outcome)
    );
    assert!(!outcome.is_success());
}

#[test]
fn each_outcome_has_its_error() {
    assert_eq!(
        Outcome::Delivered {
            images: 1,
            dropped: 0
        }
        .error(),
        None
    );
    assert_eq!(Outcome::Suppressed.error(), None);
    assert_eq!(Outcome::NoCameras.error(), None);
    assert_eq!(
        Outcome::EnumerateFailed {
            error: RelayError::UpstreamProtocolError
        }
        .error(),
        Some(RelayError::UpstreamProtocolError)
    );
    assert_eq!(
        Outcome::NothingToSend {
            failed: 0,
            first_error: None
        }
        .error(),
        Some(RelayError::NothingToSend)
    );
    assert_eq!(
        Outcome::DeliveryFailed { sent: 0, images: 1 }.error(),
        Some(RelayError::ChatDeliveryError)
    );
}

#[test]
fn the_default_policy_is_unbounded_and_strict_about_empty_lists() {
    let policy = RelayPolicy::default();
    assert_eq!(policy.concurrency, Concurrency::Unbounded);
    assert!(!policy.empty_list_succeeds);
    assert!(Relay::new(policy).is_some());
}

#[test]
fn a_relay_ends_once_and_repeats_its_outcome() {
    let mut relay = relay();
    relay.step(manual());
    relay.step(listed(&["a"]));
    relay.step(jpeg(0, &[1]));
    let ended = relay.step(Event::BatchSent {
        delivery: Delivery::Delivered { images: 1 },
    });
    let outcome = Outcome::Delivered {
        images: 1,
        dropped: 0,
    };
    assert_eq!(ended, finish(outcome));
    assert_eq!(relay.step(manual()), finish(outcome));
    assert_eq!(
        relay.step(Event::BatchSent {
            delivery: Delivery::Failed { sent: 0 }
        }),
        finish(outcome)
    );
    assert_eq!(relay.outcome(), Some(outcome));
}

#[test]
fn the_batch_is_as_large_as_the_list_and_no_larger() {
    let mut relay = relay();
    relay.step(manual());
    let ids = ["a", "b", "c", "d", "e", "f", "g"];
    match relay.step(listed(&ids)) {
        Action::Fetch { requests } => {
            assert_eq!(requests.len(), ids.len());
            for (position, request) in requests.iter().enumerate() {
                assert_eq!(request.index, position);
                assert_eq!(request.monitor.id, ids[position]);
            }
        }
        other => panic!("no fetch: {:?}", other),
    }
    for index in (1..ids.len()).rev() {
        assert_eq!(relay.step(jpeg(index, &[index as u8])), Action::Wait);
    }
    match relay.step(jpeg(0, &[0])) {
        Action::Deliver { images } => {
            assert_eq!(images.len(), ids.len());
            for (position, image) in images.iter().enumerate() {
                assert_eq!(image.monitor_id, ids[position]);
                assert_eq!(image.bytes, vec![position as u8]);
            }
        }
        other => panic!("no delivery: {:?}", other),
    }
}
