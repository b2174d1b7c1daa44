//! Snowplow data types: the event record of the tracker protocol and the
//! `{schema, data}` envelopes that carry custom data.
//!
//! Generally you should focus on the types and traits that a tracker takes;
//! the other types in this module are only for very custom or very advanced
//! use cases.

pub mod envelope;
pub mod event;
pub mod schema;
pub mod timestamp;

pub use envelope::{Envelope, PayloadWrapper, UnstructWrapper};
pub use event::{EventId, EventType, Platform, SnowplowEvent};
pub use schema::{has_schema, HasSchema, Schema, SchemaVersion, SchemaView};
pub use timestamp::SnowplowTimestamp;

use crate::json::{encoding, quote, quoted, EncodingError, ToJson};
use crate::util::{renders_as, Render};
use vstd::prelude::*;

verus! {

/// Wrapper that causes the internal type to be encoded as the JSON string of
/// its human-readable form.
#[derive(Debug, Clone, Copy, PartialEq, Eq)]
pub struct StringySerde<T>(pub T);

impl<T: Render> ToJson for StringySerde<T> {
    /// Never fails; the document is the quoted form of what `render` returned.
    fn to_json(&self) -> (r: Result<String, EncodingError>)
        ensures
            exists|text: String| #[trigger]
                renders_as(&self.0, text) && encoding(r) == Ok::<Seq<char>, Seq<char>>(
                    quoted(text@),
                ),
    {
        let text = self.0.render();
        assert(renders_as(&self.0, text));
        Ok(quote(text.as_str()))
    }
}

} // verus!
