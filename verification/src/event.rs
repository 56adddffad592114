//! Event metadata, domain events and the errors a handler reports.

use chrono::Utc;
use uuid::Uuid;
use vstd::prelude::*;

verus! {

#[verifier::external_type_specification]
#[verifier::external_body]
pub struct ExUuid(Uuid);

#[verifier::external_type_specification]
#[verifier::external_body]
pub struct ExJsonValue(serde_json::Value);

/// `Uuid`'s `clone`, a copy: the clone equals the original.
pub assume_specification[ <Uuid as Clone>::clone ](u: &Uuid) -> (r: Uuid)
    ensures
        r == *u,
;

/// The derived `clone` of `serde_json::Value`, a deep copy: the clone
/// equals the original.
pub assume_specification[ <serde_json::Value as Clone>::clone ](v: &serde_json::Value) -> (r:
    serde_json::Value)
    ensures
        r == *v,
;

/// Earliest second a UTC date-time can hold: January 1 of year -262143.
pub const MIN_TIMESTAMP_SECS: i64 = -8_334_601_315_200;

/// Latest second a UTC date-time can hold: the last second of December 31
/// of year 262142.
pub const MAX_TIMESTAMP_SECS: i64 = 8_210_266_876_799;

/// Whether `secs` seconds since the Unix epoch plus `subsec_nanos`
/// nanoseconds name a UTC date-time: the second lies in the range of dates,
/// and the nanoseconds stay below one second, or below two within a leap
/// second (the last second of a minute).
pub open spec fn is_valid_timestamp(secs: int, subsec_nanos: int) -> bool {
    &&& MIN_TIMESTAMP_SECS <= secs <= MAX_TIMESTAMP_SECS
    &&& 0 <= subsec_nanos < 2_000_000_000
    &&& subsec_nanos >= 1_000_000_000 ==> secs % 60 == 59
}

/// A point in UTC time as the Unix clock counts it: whole seconds since the
/// epoch and the nanoseconds past that second.
#[derive(Debug, Clone, Copy, PartialEq, Eq, Structural)]
pub struct Timestamp {
    secs: i64,
    subsec_nanos: u32,
}

impl Timestamp {
    #[verifier::type_invariant]
    spec fn inv(self) -> bool {
        is_valid_timestamp(self.secs as int, self.subsec_nanos as int)
    }

    /// Seconds since the Unix epoch.
    pub closed spec fn seconds(self) -> i64 {
        self.secs
    }

    /// Nanoseconds past the second.
    pub closed spec fn nanos(self) -> u32 {
        self.subsec_nanos
    }

    /// The timestamp `secs` seconds and `subsec_nanos` nanoseconds after the
    /// Unix epoch, or `None` where these name no UTC date-time.
    pub fn new(secs: i64, subsec_nanos: u32) -> (t: Option<Self>)
        ensures
            t is Some <==> is_valid_timestamp(secs as int, subsec_nanos as int),
            t is Some ==> t->0.seconds() == secs && t->0.nanos() == subsec_nanos,
    {
        if secs < MIN_TIMESTAMP_SECS || secs > MAX_TIMESTAMP_SECS || subsec_nanos >= 2_000_000_000 {
            return None;
        }
        if subsec_nanos >= 1_000_000_000 {
            let since_min = (secs - MIN_TIMESTAMP_SECS) as u64;
            let in_leap_second = since_min % 60 == 59;
            proof {
                assert(MIN_TIMESTAMP_SECS == -138_910_021_920 * 60);
                assert(in_leap_second <==> (secs as int) % 60 == 59);
            }
            if !in_leap_second {
                return None;
            }
        }
        Some(Timestamp { secs, subsec_nanos })
    }

    /// Seconds since the Unix epoch.
    pub fn secs(&self) -> (s: i64)
        ensures
            s == self.seconds(),
            is_valid_timestamp(self.seconds() as int, self.nanos() as int),
    {
        proof {
            use_type_invariant(self);
        }
        self.secs
    }

    /// Nanoseconds past the second.
    pub fn subsec_nanos(&self) -> (n: u32)
        ensures
            n == self.nanos(),
            is_valid_timestamp(self.seconds() as int, self.nanos() as int),
    {
        proof {
            use_type_invariant(self);
        }
        self.subsec_nanos
    }
}

/// Event handler error.
#[derive(Debug, Clone)]
pub enum EventHandlerError {
    HandlerFailed(String),
    ProcessingError(String),
    HandlerNotFound(String),
}

/// Base event metadata.
#[derive(Debug, Clone)]
pub struct EventMetadata {
    /// Unique event ID
    pub id: Uuid,
    /// Event name/type
    pub name: String,
    /// Timestamp when event was created
    pub timestamp: Timestamp,
    /// Optional correlation ID for tracing
    pub correlation_id: Option<Uuid>,
    /// Optional causation ID (ID of the event that caused this event)
    pub causation_id: Option<Uuid>,
    /// Custom metadata
    pub metadata: serde_json::Value,
}

/// `Uuid::new_v4`: a random identifier; nothing is promised of its value.
#[verifier::external_body]
fn random_event_id() -> Uuid {
    Uuid::new_v4()
}

/// `Utc::now`, read out by `DateTime::timestamp` and
/// `DateTime::timestamp_subsec_nanos`: the current time, which is not known
/// here; it is built from the duration since the Unix epoch, so it lies at
/// or after the epoch and outside any leap second. It panics only where the
/// system clock reads a time before the Unix epoch.
#[verifier::external_body]
fn current_time() -> (t: Timestamp)
    ensures
        t.seconds() >= 0,
        t.nanos() < 1_000_000_000,
{
    let now = Utc::now();
    Timestamp { secs: now.timestamp(), subsec_nanos: now.timestamp_subsec_nanos() }
}

/// The fields of a JSON value that is an object, by name; `None` for any
/// other JSON value (what `Value::as_object` tells of it).
pub uninterp spec fn json_object_entries(v: serde_json::Value) -> Option<
    Map<Seq<char>, serde_json::Value>,
>;

/// The fields of an empty JSON object: an object, with none.
pub open spec fn no_json_entries() -> Option<Map<Seq<char>, serde_json::Value>> {
    Some(Map::empty())
}

/// `serde_json::Map::new` wrapped in `Value::Object`: a JSON object with no
/// field.
#[verifier::external_body]
fn empty_json_object() -> (v: serde_json::Value)
    ensures
        json_object_entries(v) == no_json_entries(),
{
    serde_json::Value::Object(serde_json::Map::new())
}

impl EventMetadata {
    /// Create new event metadata: a fresh random id, the current time, the
    /// given name, no correlation or causation id, empty custom metadata.
    pub fn new(name: &str) -> (m: Self)
        ensures
            m.name@ == name@,
            m.correlation_id is None,
            m.causation_id is None,
            json_object_entries(m.metadata) == no_json_entries(),
            m.timestamp.seconds() >= 0,
            m.timestamp.nanos() < 1_000_000_000,
    {
        Self::with_identity(random_event_id(), name, current_time())
    }

    /// Event metadata with the given id, name and time, no correlation or
    /// causation id, and empty custom metadata.
    pub fn with_identity(id: Uuid, name: &str, timestamp: Timestamp) -> (m: Self)
        ensures
            m.id == id,
            m.name@ == name@,
            m.timestamp == timestamp,
            m.correlation_id is None,
            m.causation_id is None,
            json_object_entries(m.metadata) == no_json_entries(),
    {
        EventMetadata {
            id,
            name: name.to_owned(),
            timestamp,
            correlation_id: None,
            causation_id: None,
            metadata: empty_json_object(),
        }
    }

    /// Set correlation ID; every other field stays as it was.
    pub fn with_correlation_id(self, id: Uuid) -> (m: Self)
        ensures
            m == (EventMetadata { correlation_id: Some(id), ..self }),
    {
        let mut m = self;
        m.correlation_id = Some(id);
        m
    }

    /// Set causation ID; every other field stays as it was.
    pub fn with_causation_id(self, id: Uuid) -> (m: Self)
        ensures
            m == (EventMetadata { causation_id: Some(id), ..self }),
    {
        let mut m = self;
        m.causation_id = Some(id);
        m
    }
}

/// Domain event (for event sourcing).
#[derive(Debug, Clone)]
pub struct DomainEvent {
    /// Event metadata
    pub metadata: EventMetadata,
    /// Aggregate ID
    pub aggregate_id: String,
    /// Aggregate type
    pub aggregate_type: String,
    /// Event version (for schema evolution)
    pub version: u32,
    /// Event payload
    pub payload: serde_json::Value,
}

impl DomainEvent {
    /// Create new domain event, at version 1, carrying `payload` unchanged.
    pub fn new(
        event_name: &str,
        aggregate_id: &str,
        aggregate_type: &str,
        payload: serde_json::Value,
    ) -> (e: Self)
        ensures
            e.metadata.name@ == event_name@,
            e.metadata.correlation_id is None,
            e.metadata.causation_id is None,
            json_object_entries(e.metadata.metadata) == no_json_entries(),
            e.metadata.timestamp.seconds() >= 0,
            e.metadata.timestamp.nanos() < 1_000_000_000,
            e.aggregate_id@ == aggregate_id@,
            e.aggregate_type@ == aggregate_type@,
            e.version == 1,
            e.payload == payload,
    {
        DomainEvent {
            metadata: EventMetadata::new(event_name),
            aggregate_id: aggregate_id.to_owned(),
            aggregate_type: aggregate_type.to_owned(),
            version: 1,
            payload,
        }
    }
}

} // verus!
