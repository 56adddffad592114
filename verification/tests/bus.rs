use armature_events::bus::EventBus;
use armature_events::config::{EventBusBuilder, EventBusConfig};
use armature_events::event::EventHandlerError;
use armature_events::publish::{
    Dispatch, EventBusError, HandlerOutcome, Publication, PublishReport,
};
use std::any::TypeId;
use std::collections::HashMap;

struct TestEvent;
struct OtherEvent;

fn test_event() -> TypeId {
    TypeId::of::<TestEvent>()
}

/// Runs a publication to its end, asking `run` for the outcome of each
/// handler the publication names, and counting how often each one ran.
fn drive(
    mut p: Publication,
    counts: &mut HashMap<u64, u32>,
    run: impl Fn(u64) -> HandlerOutcome,
) -> Result<PublishReport, EventBusError> {
    while let Some(id) = p.next_handler() {
        *counts.entry(id).or_insert(0) += 1;
        p.record(run(id));
    }
    p.finish()
}

#[test]
fn test_event_bus_publish() {
    let mut bus = EventBus::new();
    let handler = bus.subscribe(test_event());

    let mut counts = HashMap::new();
    let report = drive(bus.begin_publish(test_event()), &mut counts, |_| HandlerOutcome::Completed)
        .unwrap();

    assert_eq!(counts.get(&handler).copied().unwrap_or(0), 1);
    assert_eq!(report, PublishReport { handlers_invoked: 1, handlers_failed: 0 });
}

#[test]
fn test_multiple_handlers() {
    let mut bus = EventBus::new();
    let h1 = bus.subscribe(test_event());
    let h2 = bus.subscribe(test_event());

    let mut counts = HashMap::new();
    drive(bus.begin_publish(test_event()), &mut counts, |_| HandlerOutcome::Completed).unwrap();

    assert_eq!(counts.get(&h1).copied().unwrap_or(0), 1);
    assert_eq!(counts.get(&h2).copied().unwrap_or(0), 1);
}

#[test]
fn test_continue_on_error_false_stops_on_first_failure() {
    let mut bus = EventBusBuilder::new().continue_on_error(false).enable_logging(false).build();

    let failing = bus.subscribe(test_event());
    let second = bus.subscribe(test_event());

    let mut counts = HashMap::new();
    let result = drive(bus.begin_publish(test_event()), &mut counts, |id| {
        if id == failing {
            HandlerOutcome::Failed(EventHandlerError::HandlerFailed("boom".to_string()))
        } else {
            HandlerOutcome::Completed
        }
    });

    assert!(
        matches!(result, Err(EventBusError::HandlersFailed(_))),
        "expected HandlersFailed error, got {result:?}"
    );
    assert_eq!(counts.get(&failing).copied().unwrap_or(0), 1);
    assert_eq!(
        counts.get(&second).copied().unwrap_or(0),
        0,
        "second handler must not run once continue_on_error(false) stopped after the first failure"
    );
}

#[test]
fn test_handler_count() {
    let mut bus = EventBus::new();
    assert_eq!(bus.handler_count(test_event()), 0);

    bus.subscribe(test_event());
    assert_eq!(bus.handler_count(test_event()), 1);

    bus.subscribe(test_event());
    assert_eq!(bus.handler_count(test_event()), 2);
}

#[test]
fn test_publish_report_counts_failed_handlers() {
    let mut bus = EventBusBuilder::new().enable_logging(false).build();

    let failing = bus.subscribe(test_event());
    bus.subscribe(test_event());

    let mut counts = HashMap::new();
    let report = drive(bus.begin_publish(test_event()), &mut counts, |id| {
        if id == failing {
            HandlerOutcome::Failed(EventHandlerError::HandlerFailed("boom".to_string()))
        } else {
            HandlerOutcome::Completed
        }
    })
    .expect("continue_on_error(true) swallows the failure");

    assert_eq!(report.handlers_invoked, 2);
    assert_eq!(report.handlers_failed, 1);
    assert!(!report.all_succeeded());
}

#[test]
fn test_publish_report_is_empty_without_handlers() {
    let bus = EventBusBuilder::new().enable_logging(false).build();

    let mut counts = HashMap::new();
    let report =
        drive(bus.begin_publish(test_event()), &mut counts, |_| HandlerOutcome::Completed).unwrap();

    assert_eq!(report, PublishReport::default());
    assert!(report.all_succeeded());
}

#[test]
fn default_config_has_every_switch_on() {
    let c = EventBusConfig::default();
    assert!(c.async_handling && c.continue_on_error && c.enable_logging);
    assert_eq!(EventBus::default().config(), c);
    assert_eq!(EventBusBuilder::default().build().config(), c);
}

#[test]
fn builder_switches_one_setting_at_a_time() {
    let c = EventBusBuilder::new().async_handling(false).build().config();
    assert_eq!(
        c,
        EventBusConfig { async_handling: false, continue_on_error: true, enable_logging: true }
    );
    let c = EventBusBuilder::new().enable_logging(false).continue_on_error(false).build().config();
    assert_eq!(
        c,
        EventBusConfig { async_handling: true, continue_on_error: false, enable_logging: false }
    );
}

#[test]
fn dispatch_follows_the_switches() {
    let mode = |a: bool, c: bool| {
        EventBus::with_config(EventBusConfig {
            async_handling: a,
            continue_on_error: c,
            enable_logging: false,
        })
        .begin_publish(test_event())
        .dispatch()
    };
    assert_eq!(mode(true, true), Dispatch::Concurrent);
    assert_eq!(mode(true, false), Dispatch::Sequential);
    assert_eq!(mode(false, true), Dispatch::Inline);
    assert_eq!(mode(false, false), Dispatch::Inline);
}

#[test]
fn handlers_run_in_subscription_order_and_ids_are_distinct() {
    let mut bus = EventBus::new();
    let a = bus.subscribe(test_event());
    let b = bus.subscribe(TypeId::of::<OtherEvent>());
    let c = bus.subscribe(test_event());
    assert!(a != b && b != c && a != c);
    let p = bus.begin_publish(test_event());
    assert_eq!(p.handlers(), &vec![a, c]);
    assert_eq!(p.next_handler(), Some(a));
    assert_eq!(bus.begin_publish(TypeId::of::<OtherEvent>()).handlers(), &vec![b]);
}

#[test]
fn unsubscribe_drops_one_type_only() {
    let mut bus = EventBus::new();
    let a = bus.subscribe(test_event());
    let b = bus.subscribe(test_event());
    let o = bus.subscribe(TypeId::of::<OtherEvent>());
    assert_eq!(bus.unsubscribe(test_event()), vec![a, b]);
    assert_eq!(bus.handler_count(test_event()), 0);
    assert_eq!(bus.handler_count(TypeId::of::<OtherEvent>()), 1);
    assert_eq!(bus.unsubscribe(test_event()), Vec::<u64>::new());
    assert_eq!(bus.begin_publish(TypeId::of::<OtherEvent>()).handlers(), &vec![o]);
}

#[test]
fn clear_drops_every_type() {
    let mut bus = EventBus::new();
    bus.subscribe(test_event());
    bus.subscribe(TypeId::of::<OtherEvent>());
    bus.clear();
    assert_eq!(bus.handler_count(test_event()), 0);
    assert_eq!(bus.handler_count(TypeId::of::<OtherEvent>()), 0);
    assert!(bus.can_subscribe());
    let next = bus.subscribe(test_event());
    assert_eq!(next, 2);
}

#[test]
fn continue_on_error_runs_every_handler_and_counts_failures() {
    let mut bus = EventBus::new();
    for _ in 0..4 {
        bus.subscribe(test_event());
    }
    let mut counts = HashMap::new();
    let report = drive(bus.begin_publish(test_event()), &mut counts, |id| {
        if id % 2 == 0 {
            HandlerOutcome::Panicked("task panicked".to_string())
        } else {
            HandlerOutcome::Completed
        }
    })
    .unwrap();
    assert_eq!(counts.len(), 4);
    assert_eq!(report, PublishReport { handlers_invoked: 4, handlers_failed: 2 });
}

#[test]
fn stopping_run_reports_a_panic_as_handler_failure() {
    let mut bus = EventBusBuilder::new().continue_on_error(false).build();
    let first = bus.subscribe(test_event());
    let panicking = bus.subscribe(test_event());
    bus.subscribe(test_event());
    let mut counts = HashMap::new();
    let result = drive(bus.begin_publish(test_event()), &mut counts, |id| {
        if id == panicking {
            HandlerOutcome::Panicked("task 7 panicked".to_string())
        } else {
            HandlerOutcome::Completed
        }
    });
    assert_eq!(counts.len(), 2);
    assert_eq!(counts.get(&first), Some(&1));
    match result {
        Err(EventBusError::HandlersFailed(errors)) => {
            assert_eq!(errors.len(), 1);
            match &errors[0] {
                EventHandlerError::HandlerFailed(m) => assert_eq!(m, "task 7 panicked"),
                other => panic!("unexpected error {other:?}"),
            }
        }
        other => panic!("unexpected answer {other:?}"),
    }
}

#[test]
fn stopping_run_keeps_the_handlers_own_error() {
    let mut bus = EventBusBuilder::new().continue_on_error(false).async_handling(false).build();
    bus.subscribe(test_event());
    let p = bus.begin_publish(test_event());
    assert_eq!(p.dispatch(), Dispatch::Inline);
    let mut counts = HashMap::new();
    let result = drive(p, &mut counts, |_| {
        HandlerOutcome::Failed(EventHandlerError::ProcessingError("bad".to_string()))
    });
    match result {
        Err(EventBusError::HandlersFailed(errors)) => {
            assert!(matches!(&errors[..], [EventHandlerError::ProcessingError(m)] if m == "bad"));
        }
        other => panic!("unexpected answer {other:?}"),
    }
}

#[test]
fn all_succeeded_reads_the_failure_count() {
    assert!(PublishReport { handlers_invoked: 3, handlers_failed: 0 }.all_succeeded());
    assert!(!PublishReport { handlers_invoked: 3, handlers_failed: 3 }.all_succeeded());
}

#[test]
fn publication_started_by_hand_runs_its_list() {
    let config = EventBusConfig::default();
    let mut p = Publication::start(config, vec![9, 4]);
    assert_eq!(p.config(), config);
    assert_eq!(p.next_handler(), Some(9));
    p.record(HandlerOutcome::Completed);
    assert_eq!(p.next_handler(), Some(4));
    p.record(HandlerOutcome::Completed);
    assert_eq!(p.next_handler(), None);
    assert_eq!(p.finish().unwrap(), PublishReport { handlers_invoked: 2, handlers_failed: 0 });
}

#[test]
fn handler_count_counts_subscriptions_since_last_reset() {
    let mut bus = EventBus::new();
    bus.subscribe(test_event());
    bus.subscribe(test_event());
    bus.unsubscribe(test_event());
    bus.subscribe(test_event());
    bus.subscribe(TypeId::of::<OtherEvent>());
    assert_eq!(bus.handler_count(test_event()), 1);
    assert_eq!(bus.handler_count(TypeId::of::<OtherEvent>()), 1);
    bus.clear();
    bus.subscribe(test_event());
    let mut counts = HashMap::new();
    drive(bus.begin_publish(test_event()), &mut counts, |_| HandlerOutcome::Completed).unwrap();
    assert_eq!(bus.handler_count(test_event()), 1);
    assert_eq!(bus.handler_count(TypeId::of::<OtherEvent>()), 0);
}
