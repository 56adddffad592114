//! The event bus: the handlers subscribed to each event type, kept in
//! subscription order, and the start of each publication.

use crate::config::{default_config, EventBusConfig};
use crate::handler_table::{
    empty_table, listed, table_clear, table_contents, table_get, table_new, table_push,
    table_remove,
};
use crate::publish::{Publication, HandlerOutcome};
use dashmap::DashMap;
use std::any::TypeId;
use vstd::prelude::*;

verus! {

/// Event bus for in-process event publishing. Handlers are known here by
/// the identifier that `subscribe` hands out for them.
pub struct EventBus {
    handlers: DashMap<TypeId, Vec<u64>>,
    config: EventBusConfig,
    next_handler_id: u64,
}

/// What a bus holds: its setting, the handler identifiers subscribed under
/// each event type in subscription order, and the identifier the next
/// subscription gets.
pub struct BusView {
    pub config: EventBusConfig,
    pub subscriptions: Map<TypeId, Seq<u64>>,
    pub next_handler_id: u64,
}

impl BusView {
    /// The handlers subscribed to `event_type`, in subscription order.
    pub open spec fn subscribers(self, event_type: TypeId) -> Seq<u64> {
        listed(self.subscriptions, event_type)
    }

    /// The bus's invariant: an event type is present only with at least one
    /// handler, every identifier was handed out already, and no identifier
    /// is subscribed twice, under one event type or two.
    pub open spec fn wf(self) -> bool {
        &&& forall|t: TypeId| #[trigger]
            self.subscriptions.contains_key(t) ==> self.subscriptions[t].len() > 0
        &&& forall|t: TypeId, i: int|
            self.subscriptions.contains_key(t) && 0 <= i < self.subscriptions[t].len()
                ==> #[trigger] self.subscriptions[t][i] < self.next_handler_id
        &&& forall|t1: TypeId, i: int, t2: TypeId, j: int|
            self.subscriptions.contains_key(t1) && self.subscriptions.contains_key(t2) && 0 <= i
                < self.subscriptions[t1].len() && 0 <= j < self.subscriptions[t2].len() && (t1
                != t2 || i != j) ==> #[trigger] self.subscriptions[t1][i]
                != #[trigger] self.subscriptions[t2][j]
    }

    /// A bus with `config` and no subscription.
    pub open spec fn fresh(config: EventBusConfig) -> BusView {
        BusView { config, subscriptions: empty_table(), next_handler_id: 0 }
    }

    /// The bus once the next identifier is subscribed to `event_type`, after
    /// the handlers already there.
    pub open spec fn subscribed(self, event_type: TypeId) -> BusView {
        BusView {
            subscriptions: self.subscriptions.insert(
                event_type,
                self.subscribers(event_type).push(self.next_handler_id),
            ),
            next_handler_id: (self.next_handler_id + 1) as u64,
            ..self
        }
    }

    /// The bus once every handler of `event_type` is dropped.
    pub open spec fn unsubscribed(self, event_type: TypeId) -> BusView {
        BusView { subscriptions: self.subscriptions.remove(event_type), ..self }
    }

    /// The bus once every handler is dropped.
    pub open spec fn cleared(self) -> BusView {
        BusView { subscriptions: empty_table(), ..self }
    }
}

impl View for EventBus {
    type V = BusView;

    closed spec fn view(&self) -> BusView {
        BusView {
            config: self.config,
            subscriptions: table_contents(self.handlers),
            next_handler_id: self.next_handler_id,
        }
    }
}

impl EventBus {
    #[verifier::type_invariant]
    spec fn inv(self) -> bool {
        self@.wf()
    }

    /// Create new event bus with the default configuration.
    pub fn new() -> (bus: Self)
        ensures
            bus@ == BusView::fresh(default_config()),
            bus@.wf(),
    {
        Self::with_config(EventBusConfig::default())
    }

    /// Create event bus with custom config.
    pub fn with_config(config: EventBusConfig) -> (bus: Self)
        ensures
            bus@ == BusView::fresh(config),
            bus@.wf(),
    {
        EventBus { handlers: table_new(), config, next_handler_id: 0 }
    }

    /// The bus's configuration.
    pub fn config(&self) -> (c: EventBusConfig)
        ensures
            c == self@.config,
            self@.wf(),
    {
        proof {
            use_type_invariant(self);
        }
        self.config
    }

    /// Whether another handler can be subscribed: identifiers are not yet
    /// used up.
    pub fn can_subscribe(&self) -> (b: bool)
        ensures
            b == (self@.next_handler_id < u64::MAX),
    {
        self.next_handler_id < u64::MAX
    }

    /// Subscribe a handler to an event type. Returns the identifier by which
    /// the handler is known from now on; it runs after the handlers already
    /// subscribed to that type.
    pub fn subscribe(&mut self, event_type: TypeId) -> (id: u64)
        requires
            old(self)@.next_handler_id < u64::MAX,
        ensures
            id == old(self)@.next_handler_id,
            final(self)@ == old(self)@.subscribed(event_type),
            final(self)@.wf(),
    {
        proof {
            use_type_invariant(&*self);
            lemma_subscribed_wf(self@, event_type);
        }
        let id = self.next_handler_id;
        self.next_handler_id = id + 1;
        let mut handlers = table_new();
        std::mem::swap(&mut handlers, &mut self.handlers);
        table_push(&mut handlers, event_type, id);
        self.handlers = handlers;
        id
    }

    /// Unsubscribe all handlers for an event type. Returns the identifiers
    /// that were subscribed to it, in subscription order.
    pub fn unsubscribe(&mut self, event_type: TypeId) -> (removed: Vec<u64>)
        ensures
            removed@ == old(self)@.subscribers(event_type),
            final(self)@ == old(self)@.unsubscribed(event_type),
            final(self)@.wf(),
    {
        proof {
            use_type_invariant(&*self);
            lemma_unsubscribed_wf(self@, event_type);
        }
        let mut handlers = table_new();
        std::mem::swap(&mut handlers, &mut self.handlers);
        let ids = table_remove(&mut handlers, &event_type);
        self.handlers = handlers;
        match ids {
            Some(ids) => ids,
            None => Vec::new(),
        }
    }

    /// Clear all handlers.
    pub fn clear(&mut self)
        ensures
            final(self)@ == old(self)@.cleared(),
            final(self)@.wf(),
    {
        proof {
            use_type_invariant(&*self);
        }
        let mut handlers = table_new();
        std::mem::swap(&mut handlers, &mut self.handlers);
        table_clear(&mut handlers);
        self.handlers = handlers;
    }

    /// Get handler count for an event type.
    pub fn handler_count(&self, event_type: TypeId) -> (n: usize)
        ensures
            n == self@.subscribers(event_type).len(),
            self@.wf(),
    {
        proof {
            use_type_invariant(self);
        }
        match table_get(&self.handlers, &event_type) {
            Some(ids) => ids.len(),
            None => 0,
        }
    }

    /// Start publishing an event of `event_type`: its subscribed handlers, in
    /// subscription order, under the bus's configuration, none run yet.
    pub fn begin_publish(&self, event_type: TypeId) -> (p: Publication)
        ensures
            p.wf(),
            p@.config == self@.config,
            p@.handlers == self@.subscribers(event_type),
            p@.recorded == Seq::<HandlerOutcome>::empty(),
            self@.wf(),
    {
        proof {
            use_type_invariant(self);
        }
        let ids = match table_get(&self.handlers, &event_type) {
            Some(ids) => ids,
            None => Vec::new(),
        };
        Publication::start(self.config, ids)
    }
}

impl Default for EventBus {
    fn default() -> (bus: Self)
        ensures
            bus@ == BusView::fresh(default_config()),
            bus@.wf(),
    {
        Self::new()
    }
}

/// Unsubscribing keeps the bus's invariant.
proof fn lemma_unsubscribed_wf(v: BusView, event_type: TypeId)
    requires
        v.wf(),
    ensures
        v.unsubscribed(event_type).wf(),
{
    let w = v.unsubscribed(event_type);
    assert forall|t: TypeId| #[trigger] w.subscriptions.contains_key(t) implies w.subscriptions[t]
        == v.subscriptions[t] && v.subscriptions.contains_key(t) by {}
}

/// Subscribing keeps the bus's invariant.
proof fn lemma_subscribed_wf(v: BusView, event_type: TypeId)
    requires
        v.wf(),
        v.next_handler_id < u64::MAX,
    ensures
        v.subscribed(event_type).wf(),
{
    let w = v.subscribed(event_type);
    let s = v.subscriptions;
    let n = v.next_handler_id;
    assert forall|t: TypeId, i: int|
        w.subscriptions.contains_key(t) && 0 <= i < w.subscriptions[t].len() implies #[trigger] w.subscriptions[t][i]
        < w.next_handler_id by {
        if t == event_type && i == w.subscriptions[t].len() - 1 {
        } else if t == event_type {
            assert(w.subscriptions[t][i] == s[t][i]);
        } else {
            assert(w.subscriptions[t] == s[t]);
        }
    }
    assert forall|t1: TypeId, i: int, t2: TypeId, j: int|
        w.subscriptions.contains_key(t1) && w.subscriptions.contains_key(t2) && 0 <= i
            < w.subscriptions[t1].len() && 0 <= j < w.subscriptions[t2].len() && (t1 != t2 || i
            != j) implies #[trigger] w.subscriptions[t1][i] != #[trigger] w.subscriptions[t2][j] by {
        let last1 = t1 == event_type && i == w.subscriptions[t1].len() - 1;
        let last2 = t2 == event_type && j == w.subscriptions[t2].len() - 1;
        if !last1 {
            assert(s.contains_key(t1));
            assert(w.subscriptions[t1][i] == s[t1][i]);
        }
        if !last2 {
            assert(s.contains_key(t2));
            assert(w.subscriptions[t2][j] == s[t2][j]);
        }
    }
}

} // verus!
