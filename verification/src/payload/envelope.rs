//! The `{schema, data}` envelope and the nesting of a self-describing event.

use crate::json::reading::{lemma_read_escaped, read_string};
use crate::json::{
    encodes_as, encoding, escaped, joined, lemma_quoted_plain, member, member_views, object,
    object_text, quoted, Encoding, EncodingError, Member, ToJson,
};
use crate::payload::schema::{
    has_schema, snowplow_vendor, HasSchema, Schema, SchemaVersion, SchemaView,
};
use crate::util::{Render, Stringify};
use vstd::prelude::*;

verus! {

/// The members of an envelope: the schema's URI as a string under `schema`,
/// then the data's document under `data`.
pub open spec fn envelope_members(schema: SchemaView, data: Seq<char>) -> Seq<
    (Seq<char>, Seq<char>),
> {
    seq![("schema"@, quoted(schema.uri())), ("data"@, data)]
}

/// The envelope around the document `data`.
pub open spec fn envelope(schema: SchemaView, data: Seq<char>) -> Seq<char> {
    object(envelope_members(schema, data))
}

/// The encoding of an envelope around data that encoded as `data`: the
/// envelope around the data's document, or the data's own error.
pub open spec fn enveloped(schema: SchemaView, data: Encoding) -> Encoding {
    match data {
        Ok(text) => Ok(envelope(schema, text)),
        Err(message) => Err(message),
    }
}

/// Puts the outcome of encoding some data into the envelope for `schema`.
pub fn envelope_json(schema: Schema, data: Result<String, EncodingError>) -> (r: Result<
    String,
    EncodingError,
>)
    ensures
        encoding(r) == enveloped(schema@, encoding(data)),
{
    match data {
        Ok(text) => {
            let uri = match Stringify(schema).to_json() {
                Ok(uri) => uri,
                Err(e) => {
                    return Err(e);
                },
            };
            let mut members: Vec<Member> = Vec::new();
            members.push(Member::new("schema", uri));
            members.push(Member::new("data", text));
            let out = object_text(&members);
            assert(member_views(members@) =~= envelope_members(schema@, text@));
            Ok(out)
        },
        Err(e) => Err(e),
    }
}

/// Catch-all type for the snowplow data envelope, which combines a snowplow
/// schema ID with some kind of payload. The payload includes the schema via
/// the [`HasSchema`] trait, so the two cannot drift apart. The [`Envelope`]
/// encodes as the object `{"schema": "SCHEMA", "data": data}`.
#[derive(Debug, Clone, Copy, Default)]
pub struct Envelope<T: HasSchema>(
    /// The custom data for the event.
    pub T,
);

impl<T: HasSchema> Envelope<T> {
    /// What the envelope's `schema` field holds: the URI of the schema that
    /// the data reports.
    pub fn schema_uri(&self) -> (uri: String)
        ensures
            exists|schema: Schema| #[trigger] has_schema(&self.0, schema) && uri@ == schema@.uri(),
    {
        let schema = self.0.schema();
        assert(has_schema(&self.0, schema));
        schema.render()
    }
}

impl<T: HasSchema + ToJson> ToJson for Envelope<T> {
    /// The envelope, under the schema that the data reports, around what the
    /// data's `to_json` returned.
    fn to_json(&self) -> (r: Result<String, EncodingError>)
        ensures
            exists|schema: Schema, data: Result<String, EncodingError>|
                #![trigger has_schema(&self.0, schema), encodes_as(&self.0, data)]
                has_schema(&self.0, schema) && encodes_as(&self.0, data) && encoding(r)
                    == enveloped(schema@, encoding(data)),
    {
        let schema = self.0.schema();
        let data = self.0.to_json();
        assert(has_schema(&self.0, schema) && encodes_as(&self.0, data));
        envelope_json(schema, data)
    }
}

/// The schema of the protocol's unstructured event,
/// `com.snowplowanalytics.snowplow/unstruct_event/1-0-0`.
pub open spec fn unstruct_event_schema() -> SchemaView {
    SchemaView {
        vendor: snowplow_vendor(),
        name: "unstruct_event"@,
        version: SchemaVersion { major: 1, minor: 0, patch: 0 },
    }
}

/// An [`UnstructWrapper`] corresponds to the outer "data" envelope of the
/// Snowplow Unstructured Event layout. It supplies the schema of the
/// unstructured event, whatever it wraps, and encodes as what it wraps.
#[derive(Debug, Clone, Default, Copy)]
pub struct UnstructWrapper<Payload>(pub Payload);

impl<Payload> HasSchema for UnstructWrapper<Payload> {
    fn schema(&self) -> (s: Schema)
        ensures
            s.wf(),
            s@ == unstruct_event_schema(),
    {
        proof {
            reveal_strlit("unstruct_event");
        }
        Schema::new_snowplow("unstruct_event", SchemaVersion::new(1, 0, 0))
    }
}

impl<Payload: ToJson> ToJson for UnstructWrapper<Payload> {
    /// Whatever the wrapped value's `to_json` returned.
    fn to_json(&self) -> (r: Result<String, EncodingError>)
        ensures
            encodes_as(&self.0, r),
    {
        self.0.to_json()
    }
}

/// The nesting that Snowplow imposes on a self-describing event: the payload
/// in an envelope under its own schema, and that envelope in one under the
/// schema of the unstructured event.
///
/// ```json
/// {
///   "schema": "iglu:com.snowplowanalytics.snowplow/unstruct_event/jsonschema/1-0-0",
///   "data": {
///     "schema": "iglu:com.my_company/viewed_product/jsonschema/1-0-0",
///     "data": { "product_id": "ASO01043" }
///   }
/// }
/// ```
pub type PayloadWrapper<Payload> = Envelope<UnstructWrapper<Envelope<Payload>>>;

impl<Payload: HasSchema> Envelope<UnstructWrapper<Envelope<Payload>>> {
    /// Create a new `PayloadWrapper`. This constructor handles all the
    /// nesting of [`Envelope`] etc.
    pub fn new(payload: Payload) -> (w: Self)
        ensures
            w == Envelope(UnstructWrapper(Envelope(payload))),
    {
        Envelope(UnstructWrapper(Envelope(payload)))
    }
}

/// The encoding of a self-describing event whose payload has the schema
/// `schema` and encoded as `data`.
pub open spec fn self_describing(schema: SchemaView, data: Encoding) -> Encoding {
    enveloped(unstruct_event_schema(), enveloped(schema, data))
}

/// What the `to_json` of a payload wrapper returns: the self-describing
/// event under the schema that the payload reports, around what the payload's
/// `to_json` returned.
pub proof fn lemma_wrapper_encoding<Payload: HasSchema + ToJson>(
    wrapper: PayloadWrapper<Payload>,
    r: Result<String, EncodingError>,
)
    requires
        encodes_as(&wrapper, r),
    ensures
        exists|schema: Schema, data: Result<String, EncodingError>|
            #![trigger has_schema(&wrapper.0.0.0, schema), encodes_as(&wrapper.0.0.0, data)]
            has_schema(&wrapper.0.0.0, schema) && encodes_as(&wrapper.0.0.0, data) && encoding(r)
                == self_describing(schema@, encoding(data)),
{
}

/// Wrapping is idempotent: two wrappers made from equal payloads are written
/// as the same text, or fail with the same message, where the payload's type
/// keeps to one schema and one encoding for each of its values.
pub proof fn lemma_wrapper_idempotent<Payload: HasSchema + ToJson>(
    first: Payload,
    second: Payload,
    a: Result<String, EncodingError>,
    b: Result<String, EncodingError>,
)
    requires
        first == second,
        forall|s: Schema, t: Schema| has_schema(&first, s) && has_schema(&first, t) ==> s@ == t@,
        forall|d: Result<String, EncodingError>, e: Result<String, EncodingError>|
            encodes_as(&first, d) && encodes_as(&first, e) ==> encoding(d) == encoding(e),
        encodes_as(&Envelope(UnstructWrapper(Envelope(first))), a),
        encodes_as(&Envelope(UnstructWrapper(Envelope(second))), b),
    ensures
        encoding(a) == encoding(b),
{
    lemma_wrapper_encoding(Envelope(UnstructWrapper(Envelope(first))), a);
    lemma_wrapper_encoding(Envelope(UnstructWrapper(Envelope(second))), b);
}

/// Takes the text of an envelope apart: the schema URI that it names and the
/// document that it holds under `data`.
pub open spec fn envelope_parts(text: Seq<char>) -> Option<(Seq<char>, Seq<char>)> {
    let head = seq!['{', '"', 's', 'c', 'h', 'e', 'm', 'a', '"', ':', '"'];
    let middle = seq![',', '"', 'd', 'a', 't', 'a', '"', ':'];
    if text.len() >= head.len() && text.subrange(0, head.len() as int) == head {
        match read_string(text, head.len() as int) {
            Some((uri, end)) => if end + middle.len() < text.len() && text.subrange(
                end,
                end + middle.len(),
            ) == middle && text.last() == '}' {
                Some((uri, text.subrange(end + middle.len(), text.len() - 1)))
            } else {
                None
            },
            None => None,
        }
    } else {
        None
    }
}

/// An envelope can be taken apart again: it names the URI of its schema and
/// holds the data's document unchanged, whatever that document is.
pub proof fn lemma_envelope_parts(schema: SchemaView, data: Seq<char>)
    ensures
        envelope_parts(envelope(schema, data)) == Some((schema.uri(), data)),
{
    let text = envelope(schema, data);
    let uri = schema.uri();
    let head = seq!['{', '"', 's', 'c', 'h', 'e', 'm', 'a', '"', ':', '"'];
    let middle = seq![',', '"', 'd', 'a', 't', 'a', '"', ':'];
    let after = middle + data + seq!['}'];
    reveal_strlit("schema");
    reveal_strlit("data");
    lemma_quoted_plain("schema"@);
    lemma_quoted_plain("data"@);
    let members = envelope_members(schema, data);
    let parts = members.map_values(|m: (Seq<char>, Seq<char>)| member(m));
    assert(parts.len() == 2);
    assert(parts.drop_last().len() == 1);
    assert(joined(parts.drop_last()) == parts[0]);
    assert(joined(parts) == parts[0] + seq![','] + parts[1]);
    assert(text =~= head + escaped(uri) + seq!['"'] + after);
    lemma_read_escaped(head, uri, after);
    let end = (head.len() + escaped(uri).len() + 1) as int;
    assert(text.subrange(0, head.len() as int) =~= head);
    assert(text.subrange(end, end + middle.len()) =~= middle);
    assert(text.subrange(end + middle.len(), text.len() - 1) =~= data);
}

} // verus!
