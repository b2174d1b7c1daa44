//! The event record: the flat, top-level document of the tracker protocol.

use crate::json::{
    encodes_as, encoding, has_key, hex_digit, member_views, object, object_text, quote, quoted,
    Encoding, EncodingError, Member, ToJson,
};
use crate::json::reading::{lemma_unquoted_quoted, unquoted};
use crate::payload::envelope::{
    envelope, envelope_parts, lemma_envelope_parts, self_describing, unstruct_event_schema,
    PayloadWrapper,
};
use crate::payload::schema::{has_schema, HasSchema, Schema, SchemaView};
use crate::payload::timestamp::SnowplowTimestamp;
use crate::util::{flattened, JsonString};
use vstd::arithmetic::power::pow;
use vstd::prelude::*;

verus! {

/// The event type we're sending. Currently we only support "self-describing"
/// events.
#[derive(Clone, Copy, Debug)]
pub enum EventType {
    /// An unstructured event, described by a schema.
    SelfDescribingEvent,
}

impl Default for EventType {
    fn default() -> (e: Self)
        ensures
            e == EventType::SelfDescribingEvent,
    {
        EventType::SelfDescribingEvent
    }
}

impl EventType {
    /// The protocol's code for the event type.
    pub open spec fn code_text(self) -> Seq<char> {
        "ue"@
    }

    /// The protocol's code for the event type.
    pub fn code(&self) -> (c: &'static str)
        ensures
            c@ == self.code_text(),
    {
        "ue"
    }
}

impl ToJson for EventType {
    /// Never fails; the document is the code as a JSON string.
    fn to_json(&self) -> (r: Result<String, EncodingError>)
        ensures
            encoding(r) == Ok::<Seq<char>, Seq<char>>(quoted(self.code_text())),
    {
        Ok(quote(self.code()))
    }
}

/// The platform this tracker is being used on. This is generally fixed at
/// compile time, but this library is broadly cross-platform, so it still needs
/// to be provided during tracker configuration.
#[derive(Debug, Clone, Copy)]
pub enum Platform {
    /// Websites
    Web,
    /// Mobile apps (for smartphones, tablets, etc)
    Mobile,
    /// Native desktop apps used by consumers
    Desktop,
    /// Applications used on servers, like web servers, databases, etc
    ServerSide,
    /// General app
    App,
    /// Smart TV
    Tv,
    /// Video game console
    GameConsole,
    /// Internet of Things device
    Thing,
}

impl Default for Platform {
    fn default() -> (p: Self)
        ensures
            p == Platform::App,
    {
        Platform::App
    }
}

impl Platform {
    /// The protocol's code for the platform.
    pub open spec fn code_text(self) -> Seq<char> {
        match self {
            Platform::Web => "web"@,
            Platform::Mobile => "mob"@,
            Platform::Desktop => "pc"@,
            Platform::ServerSide => "srv"@,
            Platform::App => "app"@,
            Platform::Tv => "tv"@,
            Platform::GameConsole => "cnsl"@,
            Platform::Thing => "iot"@,
        }
    }

    /// The protocol's code for the platform.
    pub fn code(&self) -> (c: &'static str)
        ensures
            c@ == self.code_text(),
    {
        match self {
            Platform::Web => "web",
            Platform::Mobile => "mob",
            Platform::Desktop => "pc",
            Platform::ServerSide => "srv",
            Platform::App => "app",
            Platform::Tv => "tv",
            Platform::GameConsole => "cnsl",
            Platform::Thing => "iot",
        }
    }
}

impl ToJson for Platform {
    /// Never fails; the document is the code as a JSON string.
    fn to_json(&self) -> (r: Result<String, EncodingError>)
        ensures
            encoding(r) == Ok::<Seq<char>, Seq<char>>(quoted(self.code_text())),
    {
        Ok(quote(self.code()))
    }
}

/// The hexadecimal digits of `bits` from place `from` up to place `to`, where
/// place 0 is the most significant of the 32 digits.
pub open spec fn hex_digits(bits: u128, from: int, to: int) -> Seq<char> {
    Seq::new(
        (to - from) as nat,
        |i: int| hex_digit((bits as int / pow(16, (31 - from - i) as nat)) % 16),
    )
}

/// The hyphenated form of the UUID with the value `bits`: its 32 lower-case
/// hexadecimal digits in groups of 8, 4, 4, 4 and 12.
pub open spec fn hyphenated(bits: u128) -> Seq<char> {
    hex_digits(bits, 0, 8) + seq!['-'] + hex_digits(bits, 8, 12) + seq!['-'] + hex_digits(
        bits,
        12,
        16,
    ) + seq!['-'] + hex_digits(bits, 16, 20) + seq!['-'] + hex_digits(bits, 20, 32)
}

/// `uuid::Uuid::from_u128` and the `Display` of its `hyphenated()` form. The
/// UUID holds the value's bytes most significant first, each printed as two
/// lower-case hexadecimal digits, with hyphens after the digits 8, 12, 16
/// and 20.
#[verifier::external_body]
fn print_hyphenated(bits: u128) -> (r: String)
    ensures
        r@ == hyphenated(bits),
{
    uuid::Uuid::from_u128(bits).hyphenated().to_string()
}

/// The identifier of an event: a UUID, held as its 128-bit value.
#[derive(Debug, Clone, Copy, PartialEq, Eq, Structural)]
pub struct EventId(pub u128);

impl EventId {
    /// The identifier with the 128-bit value `bits`.
    pub fn from_u128(bits: u128) -> (id: Self)
        ensures
            id == EventId(bits),
    {
        EventId(bits)
    }

    /// The identifier's 128-bit value.
    pub fn as_u128(&self) -> (bits: u128)
        ensures
            bits == self.0,
    {
        self.0
    }

    /// The identifier as the protocol writes it.
    pub open spec fn text(self) -> Seq<char> {
        hyphenated(self.0)
    }

    /// The identifier as the protocol writes it, before quoting.
    pub fn hyphenated(&self) -> (r: String)
        ensures
            r@ == self.text(),
    {
        print_hyphenated(self.0)
    }
}

impl ToJson for EventId {
    /// Never fails; the document is the hyphenated form as a JSON string.
    fn to_json(&self) -> (r: Result<String, EncodingError>)
        ensures
            encoding(r) == Ok::<Seq<char>, Seq<char>>(quoted(self.text())),
    {
        Ok(quote(self.hyphenated().as_str()))
    }
}

/// The data type for a Snowplow event. Generally you won't need to create
/// `SnowplowEvent` objects directly; you should prefer instead to create
/// tracked events and let the tracker's configuration complete them.
#[derive(Clone, Debug)]
pub struct SnowplowEvent<'a, Payload: HasSchema> {
    /// The event type; currently we only support self-describing events.
    /// Written under `e`.
    pub event_type: EventType,
    /// The self-describing event, flattened into a string. Written under
    /// `ue_pr`.
    pub payload: JsonString<PayloadWrapper<Payload>>,
    /// The platform that this tracker is being used on. Written under `p`.
    pub platform: Platform,
    /// An identifier describing this app. Written under `aid`.
    pub app_id: &'a str,
    /// The name of the tracker. This should generally always be the name &
    /// version of this crate. Written under `tv`.
    pub tracker_id: &'static str,
    /// An identifier describing this specific tracker in the context of the
    /// application. Written under `tna`.
    pub namespace: &'a str,
    /// The ID for this event, written under `eid`. If omitted, the member is
    /// left out and the collector generates one.
    pub event_id: Option<EventId>,
    /// The timestamp at which this event occurred. Written under `dtm`.
    pub created_timestamp: SnowplowTimestamp,
    /// The timestamp at which this event was sent to a collector. Written
    /// under `stm`.
    pub sent_timestamp: SnowplowTimestamp,
}

impl<'a, Payload: HasSchema> SnowplowEvent<'a, Payload> {
    /// The payload that the event carries.
    pub open spec fn inner(&self) -> &Payload {
        &self.payload.0.0.0.0
    }

    /// The members of the record, in order, where the flattened payload is
    /// the document `payload`. The `eid` member is there exactly where the
    /// event has an identifier.
    pub open spec fn members(&self, payload: Seq<char>) -> Seq<(Seq<char>, Seq<char>)> {
        seq![
            ("e"@, quoted(self.event_type.code_text())),
            ("ue_pr"@, payload),
            ("p"@, quoted(self.platform.code_text())),
            ("aid"@, quoted(self.app_id@)),
            ("tv"@, quoted(self.tracker_id@)),
            ("tna"@, quoted(self.namespace@)),
        ] + (match self.event_id {
            Some(id) => seq![("eid"@, quoted(id.text()))],
            None => Seq::empty(),
        }) + seq![
            ("dtm"@, quoted(self.created_timestamp.text())),
            ("stm"@, quoted(self.sent_timestamp.text())),
        ]
    }

    /// The encoding of the record where its payload has the schema `schema`
    /// and encoded as `data`: the object of the record's members around the
    /// flattened self-describing event, or the error of flattening it.
    pub open spec fn encoded(&self, schema: SchemaView, data: Encoding) -> Encoding {
        match flattened(self_describing(schema, data)) {
            Ok(payload) => Ok(object(self.members(payload))),
            Err(message) => Err(message),
        }
    }
}

impl<'a, Payload: HasSchema> SnowplowEvent<'a, Payload> {
    /// The record's document around `payload`, the flattened self-describing
    /// event.
    pub fn record_text(&self, payload: String) -> (r: String)
        ensures
            r@ == object(self.members(payload@)),
    {
        let mut members: Vec<Member> = Vec::new();
        members.push(Member::new("e", quote(self.event_type.code())));
        members.push(Member::new("ue_pr", payload));
        members.push(Member::new("p", quote(self.platform.code())));
        members.push(Member::new("aid", quote(self.app_id)));
        members.push(Member::new("tv", quote(self.tracker_id)));
        members.push(Member::new("tna", quote(self.namespace)));
        match self.event_id {
            Some(id) => {
                members.push(Member::new("eid", quote(id.hyphenated().as_str())));
            },
            None => {},
        }
        members.push(Member::new("dtm", quote(self.created_timestamp.millis_text().as_str())));
        members.push(Member::new("stm", quote(self.sent_timestamp.millis_text().as_str())));
        let out = object_text(&members);
        assert(member_views(members@) =~= self.members(payload@));
        out
    }
}

impl<'a, Payload: HasSchema + ToJson> ToJson for SnowplowEvent<'a, Payload> {
    /// The record around the payload, under the schema that the payload
    /// reports and with what the payload's `to_json` returned.
    fn to_json(&self) -> (r: Result<String, EncodingError>)
        ensures
            exists|schema: Schema, data: Result<String, EncodingError>|
                #![trigger has_schema(self.inner(), schema), encodes_as(self.inner(), data)]
                has_schema(self.inner(), schema) && encodes_as(self.inner(), data) && encoding(r)
                    == self.encoded(schema@, encoding(data)),
    {
        assert(self.inner() == &self.payload.0.0.0.0);
        match self.payload.to_json() {
            Ok(payload) => Ok(self.record_text(payload)),
            Err(e) => Err(e),
        }
    }
}

/// A record has an `eid` member exactly where the event has an identifier,
/// and the member then holds the identifier's hyphenated form as a string.
/// An event without identifier is written without the key, not with `null`
/// under it.
pub proof fn lemma_event_id_member<'a, Payload: HasSchema>(
    event: SnowplowEvent<'a, Payload>,
    payload: Seq<char>,
)
    ensures
        has_key(event.members(payload), "eid"@) <==> event.event_id is Some,
        event.event_id matches Some(id) ==> event.members(payload)[6] == (
            "eid"@,
            quoted(id.text()),
        ),
        event.members(payload).len() == (if event.event_id is Some {
            9nat
        } else {
            8nat
        }),
{
    reveal_strlit("e");
    reveal_strlit("ue_pr");
    reveal_strlit("p");
    reveal_strlit("aid");
    reveal_strlit("tv");
    reveal_strlit("tna");
    reveal_strlit("eid");
    reveal_strlit("dtm");
    reveal_strlit("stm");
    let members = event.members(payload);
    if event.event_id is Some {
        assert(members[6].0 == "eid"@);
    } else {
        assert forall|i: int| 0 <= i < members.len() implies (#[trigger] members[i]).0
            != "eid"@ by {
            let key = members[i].0;
            if i == 0 {
                assert(key.len() == 1);
            } else if i == 1 {
                assert(key.len() == 5);
            } else if i == 2 {
                assert(key.len() == 1);
            } else if i == 3 {
                assert(key[0] == 'a');
            } else if i == 4 {
                assert(key.len() == 2);
            } else if i == 5 {
                assert(key[0] == 't');
            } else if i == 6 {
                assert(key[0] == 'd');
            } else {
                assert(key[0] == 's');
            }
        }
    }
}

/// Nothing of a payload is lost on its way into the record. Where the
/// payload encoded as `data`, the record's second member is `ue_pr`, a string
/// that denotes the wrapper's text; the wrapper names the schema of the
/// unstructured event and holds the inner envelope; and the inner envelope
/// names the payload's own schema and holds `data` itself, character for
/// character.
pub proof fn lemma_payload_round_trip<'a, Payload: HasSchema>(
    event: SnowplowEvent<'a, Payload>,
    schema: SchemaView,
    data: Seq<char>,
)
    ensures
        ({
            let inner = envelope(schema, data);
            let wrapper = envelope(unstruct_event_schema(), inner);
            let members = event.members(quoted(wrapper));
            &&& event.encoded(schema, Ok(data)) == Ok::<Seq<char>, Seq<char>>(object(members))
            &&& members[1].0 == "ue_pr"@
            &&& unquoted(members[1].1) == Some(wrapper)
            &&& envelope_parts(wrapper) == Some((unstruct_event_schema().uri(), inner))
            &&& envelope_parts(inner) == Some((schema.uri(), data))
        }),
{
    let inner = envelope(schema, data);
    let wrapper = envelope(unstruct_event_schema(), inner);
    lemma_unquoted_quoted(wrapper);
    lemma_envelope_parts(unstruct_event_schema(), inner);
    lemma_envelope_parts(schema, data);
}

} // verus!
