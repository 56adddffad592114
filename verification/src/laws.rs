//! Properties of the bus and of a publication that span several operations.

use crate::bus::BusView;
use crate::config::{default_config, EventBusConfig};
use crate::event::EventHandlerError;
use crate::publish::{
    dispatch_for, failures, is_failure, lemma_failures_bounded, stops_on_failure, Dispatch,
    EventBusError, HandlerOutcome,
    PublicationView, PublishReport,
};
use std::any::TypeId;
use vstd::prelude::*;

verus! {

/// Counting the failures of a sequence with one more outcome.
proof fn lemma_failures_push(s: Seq<HandlerOutcome>, o: HandlerOutcome)
    ensures
        failures(s.push(o)) == failures(s) + if is_failure(o) {
            1nat
        } else {
            0nat
        },
{
    assert(s.push(o).drop_last() == s);
}

/// No failure is counted exactly when no outcome failed.
proof fn lemma_no_failures(s: Seq<HandlerOutcome>)
    ensures
        failures(s) == 0 <==> forall|i: int| 0 <= i < s.len() ==> !is_failure(#[trigger] s[i]),
    decreases s.len(),
{
    if s.len() > 0 {
        let init = s.drop_last();
        lemma_no_failures(init);
        if failures(s) == 0 {
            assert forall|i: int| 0 <= i < s.len() implies !is_failure(#[trigger] s[i]) by {
                if i < s.len() - 1 {
                    assert(s[i] == init[i]);
                }
            }
        } else if forall|i: int| 0 <= i < s.len() ==> !is_failure(#[trigger] s[i]) {
            assert forall|i: int| 0 <= i < init.len() implies !is_failure(#[trigger] init[i]) by {
                assert(init[i] == s[i]);
            }
            assert(!is_failure(s[s.len() - 1]));
        }
    }
}

/// Stop on first error: where failures stop the run, once a handler fails no
/// further handler runs, and the publisher is answered with that handler's
/// error alone.
pub proof fn law_failure_stops_the_run(p: PublicationView, o: HandlerOutcome)
    requires
        !p.is_finished(),
        stops_on_failure(p.config),
        is_failure(o),
    ensures
        p.after(o).is_finished(),
        p.after(o).next() is None,
        p.after(o).fails(),
        p.after(o).recorded.last() == o,
{
    lemma_failures_push(p.recorded, o);
}

/// While no handler has failed, or failures do not stop the run, a recorded
/// outcome lets the next handler in subscription order run, if any is left.
pub proof fn law_run_goes_on_in_order(p: PublicationView, o: HandlerOutcome)
    requires
        !p.is_finished(),
        !stops_on_failure(p.config) || !is_failure(o),
        p.recorded.len() + 1 < p.handlers.len(),
    ensures
        p.after(o).next() == Some(p.handlers[p.recorded.len() as int + 1]),
{
    lemma_failures_push(p.recorded, o);
}

/// With `continue_on_error`, the run ends only once every handler has run,
/// the publisher is never answered with an error, and the final report
/// counts every handler as invoked.
pub proof fn law_continue_runs_every_handler(p: PublicationView)
    requires
        p.config.continue_on_error,
        p.recorded.len() <= p.handlers.len() <= usize::MAX,
    ensures
        p.is_finished() <==> p.recorded.len() == p.handlers.len(),
        !p.fails(),
        p.is_finished() ==> p.report().handlers_invoked == p.handlers.len(),
{
}

/// Handlers are started all at once only where failures do not stop the
/// run: a started task cannot be held back.
pub proof fn law_concurrent_dispatch_never_stops(config: EventBusConfig)
    ensures
        dispatch_for(config) == Dispatch::Concurrent ==> !stops_on_failure(config),
        dispatch_for(config) == Dispatch::Concurrent <==> config.async_handling
            && config.continue_on_error,
{
}

/// The report never counts more failures than invocations, and reports no
/// failure exactly when every handler run completed.
pub proof fn law_report_counts(p: PublicationView)
    requires
        p.recorded.len() <= usize::MAX,
    ensures
        p.report().handlers_failed <= p.report().handlers_invoked,
        p.report().handlers_failed == 0 <==> forall|i: int|
            0 <= i < p.recorded.len() ==> !is_failure(#[trigger] p.recorded[i]),
{
    lemma_failures_bounded(p.recorded);
    lemma_no_failures(p.recorded);
}

/// Publishing an event that nothing is subscribed to runs no handler and
/// answers with the empty report.
pub proof fn law_no_handlers_empty_report(config: EventBusConfig)
    ensures
        ({
            let p = PublicationView {
                config,
                handlers: Seq::empty(),
                recorded: Seq::empty(),
            };
            &&& p.is_finished()
            &&& p.next() is None
            &&& !p.fails()
            &&& p.report() == PublishReport { handlers_invoked: 0, handlers_failed: 0 }
        }),
{
}

/// Subscribing adds exactly one handler, last, under its event type, after
/// the handlers already there in their order; other event types keep their
/// handlers.
pub proof fn law_subscribe_appends(v: BusView, event_type: TypeId, other: TypeId)
    ensures
        v.subscribed(event_type).subscribers(event_type) == v.subscribers(event_type).push(
            v.next_handler_id,
        ),
        v.subscribed(event_type).subscribers(event_type).len() == v.subscribers(event_type).len()
            + 1,
        other != event_type ==> v.subscribed(event_type).subscribers(other) == v.subscribers(
            other,
        ),
{
}

/// The identifier a subscription gets is subscribed nowhere before it.
pub proof fn law_subscribe_fresh_id(v: BusView, other: TypeId)
    requires
        v.wf(),
    ensures
        !v.subscribers(other).contains(v.next_handler_id),
{
    if v.subscribers(other).contains(v.next_handler_id) {
        let i = choose|i: int|
            0 <= i < v.subscribers(other).len() && v.subscribers(other)[i] == v.next_handler_id;
        assert(v.subscriptions[other][i] < v.next_handler_id);
    }
}

/// Unsubscribing drops every handler of that event type and no other.
pub proof fn law_unsubscribe_drops_type(v: BusView, event_type: TypeId, other: TypeId)
    ensures
        v.unsubscribed(event_type).subscribers(event_type).len() == 0,
        other != event_type ==> v.unsubscribed(event_type).subscribers(other) == v.subscribers(
            other,
        ),
{
}

/// Clearing drops every handler of every event type.
pub proof fn law_clear_drops_all(v: BusView, event_type: TypeId)
    ensures
        v.cleared().subscribers(event_type).len() == 0,
{
}

/// An event type is registered exactly while it has a handler.
pub proof fn law_registered_iff_subscribed(v: BusView, event_type: TypeId)
    requires
        v.wf(),
    ensures
        v.subscriptions.contains_key(event_type) <==> v.subscribers(event_type).len() > 0,
{
}

/// A change made to a bus's subscriptions.
pub enum BusChange {
    Subscribe(TypeId),
    Unsubscribe(TypeId),
    Clear,
}

/// The bus once `c` is made to it.
pub open spec fn apply_change(v: BusView, c: BusChange) -> BusView {
    match c {
        BusChange::Subscribe(t) => v.subscribed(t),
        BusChange::Unsubscribe(t) => v.unsubscribed(t),
        BusChange::Clear => v.cleared(),
    }
}

/// The bus once every change of `cs` is made to it, in order.
pub open spec fn apply_changes(v: BusView, cs: Seq<BusChange>) -> BusView
    decreases cs.len(),
{
    if cs.len() == 0 {
        v
    } else {
        apply_change(apply_changes(v, cs.drop_last()), cs.last())
    }
}

/// The subscriptions to `event_type` among `cs` that come after its last
/// unsubscription and after the last clear.
pub open spec fn subscriptions_since_reset(cs: Seq<BusChange>, event_type: TypeId) -> nat
    decreases cs.len(),
{
    if cs.len() == 0 {
        0
    } else {
        match cs.last() {
            BusChange::Subscribe(t) => subscriptions_since_reset(cs.drop_last(), event_type) + if t
                == event_type {
                1nat
            } else {
                0nat
            },
            BusChange::Unsubscribe(t) => if t == event_type {
                0
            } else {
                subscriptions_since_reset(cs.drop_last(), event_type)
            },
            BusChange::Clear => 0,
        }
    }
}

/// On a bus made with any configuration, after any sequence of
/// subscriptions, unsubscriptions and clears, the handler count of an event
/// type is the number of subscriptions to it since it was last unsubscribed
/// or the bus last cleared (publishing changes no subscription).
pub proof fn law_handler_count_over_changes(
    config: EventBusConfig,
    cs: Seq<BusChange>,
    event_type: TypeId,
)
    ensures
        apply_changes(BusView::fresh(config), cs).subscribers(event_type).len()
            == subscriptions_since_reset(cs, event_type),
    decreases cs.len(),
{
    if cs.len() > 0 {
        law_handler_count_over_changes(config, cs.drop_last(), event_type);
    }
}

/// Where failures stop the run, the handler that runs next runs only after
/// every handler before it, in subscription order, completed.
pub proof fn law_handler_runs_after_earlier_succeeded(p: PublicationView)
    requires
        stops_on_failure(p.config),
        p.next() is Some,
    ensures
        p.next() == Some(p.handlers[p.recorded.len() as int]),
        forall|i: int| 0 <= i < p.recorded.len() ==> !is_failure(#[trigger] p.recorded[i]),
{
    lemma_no_failures(p.recorded);
}

/// A handler fails unless it completed; failures stop the run exactly when
/// `continue_on_error` is off.
pub proof fn law_failure_and_stopping(o: HandlerOutcome, config: EventBusConfig)
    ensures
        is_failure(o) <==> !(o is Completed),
        stops_on_failure(config) <==> !config.continue_on_error,
{
}

/// Counting failures: none among no outcomes, and one more outcome adds one
/// exactly when it failed.
pub proof fn law_failures_count_each_failed_outcome(s: Seq<HandlerOutcome>, o: HandlerOutcome)
    ensures
        failures(Seq::<HandlerOutcome>::empty()) == 0,
        o is Completed ==> failures(s.push(o)) == failures(s),
        !(o is Completed) ==> failures(s.push(o)) == failures(s) + 1,
{
    lemma_failures_push(s, o);
}

/// A publication reports nothing before any handler ran; each recorded
/// outcome adds one invoked handler, and one failed handler exactly when it
/// failed or panicked.
pub proof fn law_report_counts_each_outcome(p: PublicationView, o: HandlerOutcome)
    requires
        p.recorded.len() < usize::MAX,
    ensures
        (PublicationView { recorded: Seq::empty(), ..p }).report() == (PublishReport {
            handlers_invoked: 0,
            handlers_failed: 0,
        }),
        p.after(o).report().handlers_invoked == p.report().handlers_invoked + 1,
        o is Completed ==> p.after(o).report().handlers_failed == p.report().handlers_failed,
        !(o is Completed) ==> p.after(o).report().handlers_failed == p.report().handlers_failed
            + 1,
{
    lemma_failures_push(p.recorded, o);
    lemma_failures_bounded(p.recorded);
}

/// Where the publisher is not answered with an error, the answer is the
/// report of every outcome recorded: one invocation per outcome, one failure
/// per outcome that failed or panicked.
pub proof fn law_answer_counts_outcomes(p: PublicationView, r: Result<PublishReport, EventBusError>)
    requires
        p.answers(r),
        !p.fails(),
        p.recorded.len() <= usize::MAX,
    ensures
        (r matches Ok(report) && report.handlers_invoked == p.recorded.len()
            && report.handlers_failed == failures(p.recorded)),
{
    lemma_failures_bounded(p.recorded);
}

/// Where failures stop the run and the running handler fails, no handler
/// runs after it and the publisher is answered with that handler's error
/// alone: its own error, or for a panic a `HandlerFailed` with the panic's
/// text.
pub proof fn law_stopped_run_answers_the_failure(
    p: PublicationView,
    o: HandlerOutcome,
    r: Result<PublishReport, EventBusError>,
)
    requires
        !p.is_finished(),
        !p.config.continue_on_error,
        !(o is Completed),
        p.after(o).answers(r),
    ensures
        p.after(o).next() is None,
        (r matches Err(EventBusError::HandlersFailed(errors)) && errors@.len() == 1 && (match o {
            HandlerOutcome::Failed(e) => errors@[0] == e,
            HandlerOutcome::Panicked(m) => errors@[0] == EventHandlerError::HandlerFailed(m),
            HandlerOutcome::Completed => false,
        })),
{
    lemma_failures_push(p.recorded, o);
}

/// Handlers are spawned all at once exactly when async handling is on and
/// failures do not stop the run; spawned and awaited one at a time when
/// async handling is on and failures stop it; run inline exactly when async
/// handling is off. Logging has no say.
pub proof fn law_dispatch_modes(config: EventBusConfig, logging: bool)
    ensures
        dispatch_for(config) == Dispatch::Concurrent <==> config.async_handling
            && config.continue_on_error,
        dispatch_for(config) == Dispatch::Sequential <==> config.async_handling
            && !config.continue_on_error,
        dispatch_for(config) == Dispatch::Inline <==> !config.async_handling,
        dispatch_for(EventBusConfig { enable_logging: logging, ..config }) == dispatch_for(config),
{
}

/// A bus made with a configuration holds exactly that configuration, and no
/// handler of any event type; its first subscription gets identifier 0.
pub proof fn law_fresh_bus_holds_its_config(config: EventBusConfig, event_type: TypeId)
    ensures
        BusView::fresh(config).config == config,
        BusView::fresh(config).subscribers(event_type).len() == 0,
        !BusView::fresh(config).subscriptions.contains_key(event_type),
        BusView::fresh(config).next_handler_id == 0,
        BusView::fresh(config).wf(),
{
}

/// The default configuration has every switch on.
pub proof fn law_default_config_all_on()
    ensures
        default_config().async_handling,
        default_config().continue_on_error,
        default_config().enable_logging,
{
}

} // verus!
