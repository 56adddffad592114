# armature-events

Event system: publish/subscribe of in-process events with async handlers.

- `src/` is the verified library (Verus):
  - `bus.rs`: the registry of handlers per event type (`EventBus`), with its
    invariant and the start of each publication;
  - `publish.rs`: one publication as a state machine (`Publication`): which
    handler runs next, when the run stops, and the answer (`PublishReport` or
    `EventBusError`);
  - `config.rs`: `EventBusConfig` and `EventBusBuilder`;
  - `event.rs`: event metadata, domain events, handler errors;
  - `handler_table.rs`: the `dashmap::DashMap` that stores the registry;
  - `laws.rs`: properties that span several operations.
- `app/` is the async side: the `Event` and handler traits, the shared
  `EventBus` whose `publish` runs handlers on tokio as the library directs,
  and the serde / `thiserror` forms of the library's types.
- `tests/` exercises the library.
