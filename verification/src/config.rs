//! How an event bus behaves, and the builder that assembles that setting.

use crate::bus::{BusView, EventBus};
use vstd::prelude::*;

verus! {

/// Event bus configuration.
#[derive(Debug, Clone, Copy, PartialEq, Eq, Structural)]
pub struct EventBusConfig {
    /// Run handlers as spawned tasks rather than inline.
    pub async_handling: bool,
    /// Keep going when a handler fails.
    pub continue_on_error: bool,
    /// Log subscriptions and publications.
    pub enable_logging: bool,
}

/// The setting every bus starts from: all three switches on.
pub open spec fn default_config() -> EventBusConfig {
    EventBusConfig { async_handling: true, continue_on_error: true, enable_logging: true }
}

impl Default for EventBusConfig {
    fn default() -> (config: Self)
        ensures
            config == default_config(),
    {
        EventBusConfig { async_handling: true, continue_on_error: true, enable_logging: true }
    }
}

/// Event bus builder.
pub struct EventBusBuilder {
    pub(crate) config: EventBusConfig,
}

impl EventBusBuilder {
    /// The configuration that `build` will hand to the bus.
    pub closed spec fn spec_config(&self) -> EventBusConfig {
        self.config
    }

    /// Create new event bus builder, starting from the default configuration.
    pub fn new() -> (builder: Self)
        ensures
            builder.spec_config() == default_config(),
    {
        EventBusBuilder { config: EventBusConfig::default() }
    }

    /// Enable/disable async handling; the other switches stay as they were.
    pub fn async_handling(self, enabled: bool) -> (builder: Self)
        ensures
            builder.spec_config() == (EventBusConfig { async_handling: enabled, ..self.spec_config() }),
    {
        let mut builder = self;
        builder.config.async_handling = enabled;
        builder
    }

    /// Enable/disable continue on error; the other switches stay as they were.
    pub fn continue_on_error(self, enabled: bool) -> (builder: Self)
        ensures
            builder.spec_config() == (EventBusConfig { continue_on_error: enabled, ..self.spec_config() }),
    {
        let mut builder = self;
        builder.config.continue_on_error = enabled;
        builder
    }

    /// Enable/disable logging; the other switches stay as they were.
    pub fn enable_logging(self, enabled: bool) -> (builder: Self)
        ensures
            builder.spec_config() == (EventBusConfig { enable_logging: enabled, ..self.spec_config() }),
    {
        let mut builder = self;
        builder.config.enable_logging = enabled;
        builder
    }

    /// Build the event bus, with the configuration assembled so far.
    pub fn build(self) -> (bus: EventBus)
        ensures
            bus@ == BusView::fresh(self.spec_config()),
            bus@.wf(),
    {
        EventBus::with_config(self.config)
    }
}

impl Default for EventBusBuilder {
    fn default() -> (builder: Self)
        ensures
            builder.spec_config() == default_config(),
    {
        EventBusBuilder::new()
    }
}

} // verus!
