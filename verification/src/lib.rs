//! Builds analytics events for a Snowplow collector: a typed payload is wrapped
//! in the `{schema, data}` envelopes of the tracker protocol, flattened into
//! the event record's string fields, and batched into one JSON document.

pub mod decimal;
pub mod emitter;
pub mod json;
pub mod payload;
pub mod tracker;
pub mod util;

pub use json::{EncodingError, ToJson};
pub use payload::{EventId, HasSchema, Platform, Schema, SchemaVersion, SnowplowTimestamp};
pub use tracker::{TrackedEvent, TrackerConfig};
