//! Batches of event records, as they are sent to a collector.
//!
//! The batch is the outermost document of the protocol: an envelope, under
//! the schema of the payload data, around the array of the records.

use crate::json::{array_of, attempts, encoding, EncodingError, ToJson};
use crate::payload::envelope::{enveloped, Envelope};
use crate::payload::event::SnowplowEvent;
use crate::payload::schema::{snowplow_vendor, HasSchema, Schema, SchemaVersion, SchemaView};
use vstd::prelude::*;

verus! {

/// The schema of a batch of records,
/// `com.snowplowanalytics.snowplow/payload_data/1-0-4`.
pub open spec fn payload_data_schema() -> SchemaView {
    SchemaView {
        vendor: snowplow_vendor(),
        name: "payload_data"@,
        version: SchemaVersion { major: 1, minor: 0, patch: 4 },
    }
}

impl<'a, Payload: HasSchema> HasSchema for Vec<SnowplowEvent<'a, Payload>> {
    fn schema(&self) -> (s: Schema)
        ensures
            s.wf(),
            s@ == payload_data_schema(),
    {
        proof {
            reveal_strlit("payload_data");
        }
        Schema::new_snowplow("payload_data", SchemaVersion::new(1, 0, 4))
    }
}

/// The outermost type that is actually sent to snowplow as a JSON payload.
/// Includes an outermost schema and a `Vec` of [`SnowplowEvent`].
pub type EventContainer<'a, Payload> = Envelope<Vec<SnowplowEvent<'a, Payload>>>;

impl<'a, Payload: HasSchema> Envelope<Vec<SnowplowEvent<'a, Payload>>> {
    /// Create a new event container around the given events, in their order.
    pub fn new(events: Vec<SnowplowEvent<'a, Payload>>) -> (c: Self)
        ensures
            c == Envelope(events),
    {
        Envelope(events)
    }
}

/// The body of the request that carries `events` to a collector: the batch's
/// document, or the error of the first record that could not be encoded, in
/// which case nothing is to be sent.
pub fn request_body<'a, Payload: HasSchema + ToJson>(
    events: Vec<SnowplowEvent<'a, Payload>>,
) -> (r: Result<String, EncodingError>)
    ensures
        exists|outcomes: Seq<Result<String, EncodingError>>| #[trigger]
            attempts(events@, outcomes) && encoding(r) == enveloped(
                payload_data_schema(),
                array_of(outcomes.map_values(|o: Result<String, EncodingError>| encoding(o))),
            ),
{
    EventContainer::new(events).to_json()
}

} // verus!
