//! What a tracker knows of itself, and how it completes the events that it
//! is handed into the records that are sent.

use crate::json::ToJson;
use crate::payload::envelope::PayloadWrapper;
use crate::payload::event::{EventId, EventType, Platform, SnowplowEvent};
use crate::payload::schema::HasSchema;
use crate::payload::timestamp::SnowplowTimestamp;
use crate::util::JsonString;
use vstd::prelude::*;

verus! {

/// The tracker ID, corresponding to the `tv` field of a snowplow event: the
/// name and version of this crate.
pub const TRACKER_ID: &'static str = "rust-fork-0.1.0";

/// The text of [`TRACKER_ID`].
pub open spec fn tracker_id() -> Seq<char> {
    "rust-fork-0.1.0"@
}

/// A [`TrackerConfig`] describes fields that are "global" to a particular
/// tracker instance and are attached to every event that is sent by the
/// tracker.
#[derive(Debug, Clone)]
pub struct TrackerConfig {
    /// The namespace this tracker will use
    pub namespace: &'static str,
    /// The platform we're operating on. If unsure, App is a good default.
    pub platform: Platform,
    /// An identifier for this specific application
    pub app_id: String,
}

/// An event to be sent to the tracker. Mostly this is a vehicle for your
/// unstructured payload, but also allows you to include your own fields for
/// the top-level snowplow event.
#[derive(Debug, Clone, Default)]
pub struct TrackedEvent<T: HasSchema + ToJson> {
    /// Your specific event payload. The tracker will handle correctly wrapping
    /// and encoding this according to the Snowplow protocol, so all you need
    /// to provide is your own data.
    pub payload: T,
    /// The event's identifier. If omitted, one will be generated by the
    /// snowplow collector. You only need to populate this if your batching
    /// scheme might retry sending events and risk duplication.
    pub id: Option<EventId>,
    /// The moment when this event occurred. If omitted, the moment of
    /// tracking is used.
    pub timestamp: Option<SnowplowTimestamp>,
}

impl<T: HasSchema + ToJson> TrackedEvent<T> {
    /// Create a new [`TrackedEvent`] with default event properties.
    pub fn new(payload: T) -> (e: Self)
        ensures
            e.payload == payload,
            e.id is None,
            e.timestamp is None,
    {
        Self { payload, id: None, timestamp: None }
    }
}

impl TrackerConfig {
    /// Whether `record` is the tracked event `event` completed by this
    /// configuration at the moment `now`: a self-describing event around the
    /// event's payload, with the configuration's platform, application and
    /// namespace, this crate's tracker ID, the event's identifier if it has
    /// one, created when the event says, or else at `now`, and sent at `now`.
    pub open spec fn completes<'a, T: HasSchema + ToJson>(
        &self,
        event: TrackedEvent<T>,
        now: SnowplowTimestamp,
        record: SnowplowEvent<'a, T>,
    ) -> bool {
        &&& record.event_type == EventType::SelfDescribingEvent
        &&& *record.inner() == event.payload
        &&& record.platform == self.platform
        &&& record.app_id@ == self.app_id@
        &&& record.tracker_id@ == tracker_id()
        &&& record.namespace@ == self.namespace@
        &&& record.event_id == event.id
        &&& record.created_timestamp == match event.timestamp {
            Some(created) => created,
            None => now,
        }
        &&& record.sent_timestamp == now
    }

    /// Completes a tracked event into the record that is sent for it.
    pub fn event<'a, T: HasSchema + ToJson>(
        &'a self,
        event: TrackedEvent<T>,
        now: SnowplowTimestamp,
    ) -> (record: SnowplowEvent<'a, T>)
        ensures
            self.completes(event, now, record),
    {
        let created = match event.timestamp {
            Some(created) => created,
            None => now,
        };
        SnowplowEvent {
            event_type: EventType::SelfDescribingEvent,
            payload: JsonString(PayloadWrapper::new(event.payload)),
            platform: self.platform,
            app_id: self.app_id.as_str(),
            tracker_id: TRACKER_ID,
            namespace: self.namespace,
            event_id: event.id,
            created_timestamp: created,
            sent_timestamp: now,
        }
    }

    /// Whether `records` are the tracked events `events`, each completed by
    /// this configuration at the moment `now`, in the same order.
    pub open spec fn completes_all<'a, T: HasSchema + ToJson>(
        &self,
        events: Seq<TrackedEvent<T>>,
        now: SnowplowTimestamp,
        records: Seq<SnowplowEvent<'a, T>>,
    ) -> bool {
        &&& records.len() == events.len()
        &&& forall|i: int|
            0 <= i < events.len() ==> self.completes(events[i], now, #[trigger] records[i])
    }

    /// Completes the tracked events of a batch, all at the moment `now`, in
    /// the order in which they were handed in.
    pub fn events<'a, T: HasSchema + ToJson>(
        &'a self,
        events: Vec<TrackedEvent<T>>,
        now: SnowplowTimestamp,
    ) -> (records: Vec<SnowplowEvent<'a, T>>)
        ensures
            self.completes_all(events@, now, records@),
    {
        let ghost handed = events@;
        let mut records: Vec<SnowplowEvent<'a, T>> = Vec::new();
        for event in it: events.into_iter()
            invariant
                it.seq() == handed,
                records@.len() == it.index(),
                forall|i: int|
                    0 <= i < records@.len() ==> self.completes(
                        handed[i],
                        now,
                        #[trigger] records@[i],
                    ),
        {
            records.push(self.event(event, now));
        }
        records
    }

    /// Completes the tracked events of a batch at the moment of the call.
    /// The clock is read once: every record of the batch is sent at the same
    /// moment, and an event that does not say when it occurred occurred then.
    pub fn events_now<'a, T: HasSchema + ToJson>(
        &'a self,
        events: Vec<TrackedEvent<T>>,
    ) -> (records: Vec<SnowplowEvent<'a, T>>)
        ensures
            exists|now: SnowplowTimestamp| #[trigger] self.completes_all(events@, now, records@),
    {
        let now = SnowplowTimestamp::now();
        self.events(events, now)
    }
}

} // verus!
