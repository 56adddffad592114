//! One publication of an event: which handlers run, in what order, when the
//! run stops, and what the publisher is told at the end.
//!
//! The handlers themselves run outside this crate. A `Publication` is told
//! the outcome of each handler as it completes and says which handler runs
//! next; `finish` gives the publisher's answer.

use crate::config::EventBusConfig;
use crate::event::EventHandlerError;
use vstd::prelude::*;

verus! {

/// Outcome of a single publication.
///
/// With `continue_on_error: true` (the default) handler failures do not turn
/// into an error for the publisher; this report is what makes them visible.
#[derive(Debug, Clone, Copy, PartialEq, Eq, Structural)]
pub struct PublishReport {
    /// Number of handlers that were invoked for the event.
    pub handlers_invoked: usize,
    /// Number of invoked handlers that returned an error or panicked.
    pub handlers_failed: usize,
}

impl Default for PublishReport {
    fn default() -> (r: Self)
        ensures
            r.handlers_invoked == 0,
            r.handlers_failed == 0,
    {
        PublishReport { handlers_invoked: 0, handlers_failed: 0 }
    }
}

impl PublishReport {
    /// True when every invoked handler completed successfully.
    pub fn all_succeeded(&self) -> (b: bool)
        ensures
            b == (self.handlers_failed == 0),
    {
        self.handlers_failed == 0
    }
}

/// Event bus errors.
#[derive(Debug)]
pub enum EventBusError {
    HandlersFailed(Vec<EventHandlerError>),
    PublishFailed(String),
}

/// How one handler's run ended.
#[derive(Debug, Clone)]
pub enum HandlerOutcome {
    /// The handler returned `Ok`.
    Completed,
    /// The handler returned this error.
    Failed(EventHandlerError),
    /// The handler's task panicked; the text describes the panic.
    Panicked(String),
}

/// How the handlers of one publication are run.
#[derive(Debug, Clone, Copy, PartialEq, Eq, Structural)]
pub enum Dispatch {
    /// Every handler is started as a task before any is awaited; the
    /// outcomes are then taken in subscription order.
    Concurrent,
    /// Each handler is started as a task and awaited before the next starts.
    Sequential,
    /// Each handler runs inline, one after the other.
    Inline,
}

/// Dispatch mode for a configuration: concurrent only where failures must
/// not stop the run, since tasks already started cannot be held back.
pub open spec fn dispatch_for(config: EventBusConfig) -> Dispatch {
    if config.async_handling && config.continue_on_error {
        Dispatch::Concurrent
    } else if config.async_handling {
        Dispatch::Sequential
    } else {
        Dispatch::Inline
    }
}

/// Whether an outcome counts as a failed handler.
pub open spec fn is_failure(o: HandlerOutcome) -> bool {
    !(o is Completed)
}

/// The error a failed outcome stands for: the handler's own error, or for a
/// panic a `HandlerFailed` carrying the panic's description.
pub open spec fn error_of(o: HandlerOutcome) -> EventHandlerError {
    match o {
        HandlerOutcome::Failed(e) => e,
        HandlerOutcome::Panicked(m) => EventHandlerError::HandlerFailed(m),
        HandlerOutcome::Completed => arbitrary(),
    }
}

/// Number of failed outcomes in `s`.
pub open spec fn failures(s: Seq<HandlerOutcome>) -> nat
    decreases s.len(),
{
    if s.len() == 0 {
        0
    } else {
        failures(s.drop_last()) + if is_failure(s.last()) {
            1nat
        } else {
            0nat
        }
    }
}

/// Whether a failed handler ends the run under `config`.
pub open spec fn stops_on_failure(config: EventBusConfig) -> bool {
    !config.continue_on_error
}

/// What is known of a publication: the bus setting, the handlers to run in
/// order, and the outcomes recorded so far (one per handler, in order).
pub struct PublicationView {
    pub config: EventBusConfig,
    pub handlers: Seq<u64>,
    pub recorded: Seq<HandlerOutcome>,
}

impl PublicationView {
    /// No further handler runs: all have run, or one failed and failures stop
    /// the run.
    pub open spec fn is_finished(self) -> bool {
        ||| self.recorded.len() >= self.handlers.len()
        ||| (stops_on_failure(self.config) && failures(self.recorded) > 0)
    }

    /// The handler that runs next, if any.
    pub open spec fn next(self) -> Option<u64> {
        if self.is_finished() {
            None
        } else {
            Some(self.handlers[self.recorded.len() as int])
        }
    }

    /// The same publication once `o` is recorded for the running handler.
    pub open spec fn after(self, o: HandlerOutcome) -> PublicationView {
        PublicationView { recorded: self.recorded.push(o), ..self }
    }

    /// The report of the handlers run so far.
    pub open spec fn report(self) -> PublishReport {
        PublishReport {
            handlers_invoked: self.recorded.len() as usize,
            handlers_failed: failures(self.recorded) as usize,
        }
    }

    /// Whether the publisher is answered with an error: a handler failed and
    /// failures stop the run.
    pub open spec fn fails(self) -> bool {
        stops_on_failure(self.config) && failures(self.recorded) > 0
    }

    /// Whether `r` is the publisher's answer: the errors of the failed run
    /// (there is one, the last outcome recorded) where the run failed, else
    /// the report.
    pub open spec fn answers(self, r: Result<PublishReport, EventBusError>) -> bool {
        if self.fails() {
            match r {
                Err(EventBusError::HandlersFailed(errors)) => errors@ == seq![
                    error_of(self.recorded.last()),
                ],
                _ => false,
            }
        } else {
            r == Ok::<PublishReport, EventBusError>(self.report())
        }
    }
}

/// One publication in progress.
pub struct Publication {
    config: EventBusConfig,
    handlers: Vec<u64>,
    report: PublishReport,
    last_error: Option<EventHandlerError>,
    recorded: Ghost<Seq<HandlerOutcome>>,
}

impl View for Publication {
    type V = PublicationView;

    closed spec fn view(&self) -> PublicationView {
        PublicationView { config: self.config, handlers: self.handlers@, recorded: self.recorded@ }
    }
}

impl Publication {
    /// Internal consistency: the counts and the kept error follow the
    /// outcomes recorded, and no outcome is recorded after the run ended.
    pub closed spec fn wf(&self) -> bool {
        let r = self.recorded@;
        &&& r.len() <= self.handlers@.len()
        &&& self.report.handlers_invoked == r.len()
        &&& self.report.handlers_failed == failures(r)
        &&& stops_on_failure(self.config) ==> forall|i: int|
            0 <= i < r.len() - 1 ==> !is_failure(#[trigger] r[i])
        &&& (r.len() > 0 && is_failure(r.last())) ==> self.last_error == Some(error_of(r.last()))
    }

    /// A consistent publication has recorded no more outcomes than it has
    /// handlers, and no more handlers than a vector holds.
    pub proof fn lemma_within_bounds(&self)
        requires
            self.wf(),
        ensures
            self@.recorded.len() <= self@.handlers.len() <= usize::MAX,
    {
        assert(self.handlers@.len() == self.handlers.len());
    }

    /// A publication of an event to `handlers`, in that order, under `config`,
    /// before any handler has run.
    pub fn start(config: EventBusConfig, handlers: Vec<u64>) -> (p: Self)
        ensures
            p.wf(),
            p@.config == config,
            p@.handlers == handlers@,
            p@.recorded == Seq::<HandlerOutcome>::empty(),
    {
        Publication {
            config,
            handlers,
            report: PublishReport { handlers_invoked: 0, handlers_failed: 0 },
            last_error: None,
            recorded: Ghost(Seq::empty()),
        }
    }

    /// The bus setting this publication runs under.
    pub fn config(&self) -> (c: EventBusConfig)
        ensures
            c == self@.config,
    {
        self.config
    }

    /// The handlers of this publication, in the order they run.
    pub fn handlers(&self) -> (h: &Vec<u64>)
        ensures
            h@ == self@.handlers,
    {
        &self.handlers
    }

    /// How the handlers are to be run.
    pub fn dispatch(&self) -> (d: Dispatch)
        ensures
            d == dispatch_for(self@.config),
    {
        if self.config.async_handling && self.config.continue_on_error {
            Dispatch::Concurrent
        } else if self.config.async_handling {
            Dispatch::Sequential
        } else {
            Dispatch::Inline
        }
    }

    /// The handler that runs next, or `None` once the run is over.
    pub fn next_handler(&self) -> (h: Option<u64>)
        requires
            self.wf(),
        ensures
            h == self@.next(),
    {
        let n = self.report.handlers_invoked;
        if n >= self.handlers.len() {
            None
        } else if !self.config.continue_on_error && self.report.handlers_failed > 0 {
            None
        } else {
            Some(self.handlers[n])
        }
    }

    /// Record how the running handler (the one `next_handler` names) ended.
    pub fn record(&mut self, outcome: HandlerOutcome)
        requires
            old(self).wf(),
            !old(self)@.is_finished(),
        ensures
            final(self).wf(),
            final(self)@ == old(self)@.after(outcome),
    {
        let ghost before = self.recorded@;
        let ghost o = outcome;
        proof {
            assert(before.push(o).drop_last() == before);
            lemma_failures_bounded(before);
            assert(self.handlers@.len() == self.handlers.len());
        }
        self.report.handlers_invoked = self.report.handlers_invoked + 1;
        match outcome {
            HandlerOutcome::Completed => {},
            HandlerOutcome::Failed(e) => {
                self.report.handlers_failed = self.report.handlers_failed + 1;
                self.last_error = Some(e);
            },
            HandlerOutcome::Panicked(m) => {
                self.report.handlers_failed = self.report.handlers_failed + 1;
                self.last_error = Some(EventHandlerError::HandlerFailed(m));
            },
        }
        self.recorded = Ghost(before.push(o));
        proof {
            let r = self.recorded@;
            assert(r.last() == o);
            if stops_on_failure(self.config) {
                assert forall|i: int| 0 <= i < r.len() - 1 implies !is_failure(#[trigger] r[i]) by {
                    assert(r[i] == before[i]);
                    if is_failure(before[i]) {
                        lemma_failure_counted(before, i);
                    }
                }
            }
        }
    }

    /// The publisher's answer once the run is over: the report, or, where a
    /// handler failed and failures stop the run, that handler's error.
    pub fn finish(self) -> (r: Result<PublishReport, EventBusError>)
        requires
            self.wf(),
            self@.is_finished(),
        ensures
            self@.answers(r),
            self@.recorded.len() <= self@.handlers.len(),
    {
        if !self.config.continue_on_error && self.report.handlers_failed > 0 {
            proof {
                let rec = self.recorded@;
                lemma_failure_present(rec);
            }
            let mut errors: Vec<EventHandlerError> = Vec::new();
            match self.last_error {
                Some(e) => errors.push(e),
                None => {},
            }
            Err(EventBusError::HandlersFailed(errors))
        } else {
            Ok(self.report)
        }
    }
}

/// There are no more failures than outcomes.
pub(crate) proof fn lemma_failures_bounded(s: Seq<HandlerOutcome>)
    ensures
        failures(s) <= s.len(),
    decreases s.len(),
{
    if s.len() > 0 {
        lemma_failures_bounded(s.drop_last());
    }
}

/// A failure at index `i` makes the count of failures positive.
proof fn lemma_failure_counted(s: Seq<HandlerOutcome>, i: int)
    requires
        0 <= i < s.len(),
        is_failure(s[i]),
    ensures
        failures(s) > 0,
    decreases s.len(),
{
    if i < s.len() - 1 {
        lemma_failure_counted(s.drop_last(), i);
    }
}

/// Where the count is positive, some outcome failed.
proof fn lemma_failure_present(s: Seq<HandlerOutcome>)
    requires
        failures(s) > 0,
    ensures
        exists|i: int| 0 <= i < s.len() && is_failure(#[trigger] s[i]),
    decreases s.len(),
{
    if !is_failure(s.last()) {
        lemma_failure_present(s.drop_last());
        let i = choose|i: int| 0 <= i < s.drop_last().len() && is_failure(#[trigger] s.drop_last()[i]);
        assert(s[i] == s.drop_last()[i]);
    }
}

} // verus!
