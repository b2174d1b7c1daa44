use serde::ser::SerializeStruct;
use serde::{Serialize, Serializer};
use serde_json::Value;
use snowplow_tracker::payload::{Envelope, PayloadWrapper, UnstructWrapper};
use snowplow_tracker::util::{JsonString, Render, Stringify};
use snowplow_tracker::{EncodingError, HasSchema, Schema, SchemaVersion, ToJson};

#[derive(Debug, Clone, PartialEq)]
struct WebPage {
    name: String,
    id: String,
}

impl Serialize for WebPage {
    fn serialize<S: Serializer>(&self, serializer: S) -> Result<S::Ok, S::Error> {
        let mut page = serializer.serialize_struct("WebPage", 2)?;
        page.serialize_field("name", &self.name)?;
        page.serialize_field("id", &self.id)?;
        page.end()
    }
}

impl HasSchema for WebPage {
    fn schema(&self) -> Schema {
        Schema::new(
            "com.snowplowanalytics.snowplow",
            "screen_view",
            SchemaVersion::new(1, 0, 0),
        )
    }
}

impl ToJson for WebPage {
    fn to_json(&self) -> Result<String, EncodingError> {
        serde_json::to_string(self).map_err(|e| EncodingError::new(e.to_string()))
    }
}

const UNSTRUCT: &str = "iglu:com.snowplowanalytics.snowplow/unstruct_event/jsonschema/1-0-0";
const SCREEN_VIEW: &str = "iglu:com.snowplowanalytics.snowplow/screen_view/jsonschema/1-0-0";
const WRAPPED: &str = "{\"schema\":\"iglu:com.snowplowanalytics.snowplow/unstruct_event/jsonschema/1-0-0\",\"data\":{\"schema\":\"iglu:com.snowplowanalytics.snowplow/screen_view/jsonschema/1-0-0\",\"data\":{\"name\":\"test\",\"id\":\"test id\"}}}";

fn test_page() -> WebPage {
    WebPage {
        name: "test".to_owned(),
        id: "test id".to_owned(),
    }
}

/// Asserts that `value` is an object with exactly the two members of an
/// envelope, and hands back what it holds under `data`.
fn open_envelope<'a>(value: &'a Value, schema: &str) -> &'a Value {
    let object = value.as_object().expect("an envelope is an object");
    assert_eq!(object.len(), 2);
    assert_eq!(object.get("schema"), Some(&Value::String(schema.to_owned())));
    object.get("data").expect("an envelope has data")
}

fn check_envelope_serialization() {
    let wrapper = PayloadWrapper::new(test_page());
    let text = wrapper.to_json().expect("the page encodes");
    assert_eq!(text, WRAPPED);

    let document: Value = serde_json::from_str(&text).expect("the wrapper is JSON");
    let inner = open_envelope(&document, UNSTRUCT);
    let page = open_envelope(inner, SCREEN_VIEW);
    let page = page.as_object().expect("the page is an object");
    assert_eq!(page.len(), 2);
    assert_eq!(page.get("name"), Some(&Value::String("test".to_owned())));
    assert_eq!(page.get("id"), Some(&Value::String("test id".to_owned())));
}

#[test]
fn emitter_test_envelope_serialization() {
    check_envelope_serialization();
}

#[test]
fn tests_test_envelope_serialization() {
    check_envelope_serialization();
}

#[test]
fn envelope_schema_is_the_payloads_schema() {
    let page = test_page();
    let expected = page.schema().render();
    let envelope = Envelope(page);
    assert_eq!(envelope.schema_uri(), expected);
    assert_eq!(envelope.schema_uri(), SCREEN_VIEW);

    let document: Value =
        serde_json::from_str(&envelope.to_json().unwrap()).expect("the envelope is JSON");
    assert_eq!(document["schema"], Value::String(expected));
}

#[test]
fn envelope_writes_schema_before_data() {
    let text = Envelope(test_page()).to_json().unwrap();
    assert_eq!(
        text,
        "{\"schema\":\"iglu:com.snowplowanalytics.snowplow/screen_view/jsonschema/1-0-0\",\"data\":{\"name\":\"test\",\"id\":\"test id\"}}"
    );
}

#[test]
fn unstruct_wrapper_has_the_fixed_schema_and_is_transparent() {
    let wrapper = UnstructWrapper(test_page());
    assert_eq!(wrapper.schema().render(), UNSTRUCT);
    assert_eq!(wrapper.to_json().unwrap(), test_page().to_json().unwrap());
    assert_eq!(UnstructWrapper(7u8).schema().render(), UNSTRUCT);
}

#[test]
fn payload_wrapper_nests_as_documented() {
    let wrapper = PayloadWrapper::new(test_page());
    assert_eq!(wrapper.schema_uri(), UNSTRUCT);
    assert_eq!(wrapper.0 .0.schema_uri(), SCREEN_VIEW);
    assert_eq!(wrapper.0 .0 .0, test_page());
}

#[test]
fn wrapping_twice_gives_identical_text() {
    let first = PayloadWrapper::new(test_page()).to_json().unwrap();
    let second = PayloadWrapper::new(test_page()).to_json().unwrap();
    assert_eq!(first.as_bytes(), second.as_bytes());
}

#[test]
fn flattened_payload_reads_back() {
    let page = WebPage {
        name: "quote \" backslash \\ newline \n tab \t bell \u{7} é 💡".to_owned(),
        id: "a/b".to_owned(),
    };
    let flattened = JsonString(PayloadWrapper::new(page.clone()))
        .to_json()
        .expect("the page encodes");

    let text: String = serde_json::from_str(&flattened).expect("ue_pr is a JSON string");
    assert_eq!(text, PayloadWrapper::new(page.clone()).to_json().unwrap());

    let document: Value = serde_json::from_str(&text).expect("the string holds JSON");
    let data = &document["data"]["data"];
    assert_eq!(data["name"], Value::String(page.name.clone()));
    assert_eq!(data["id"], Value::String(page.id.clone()));
    assert_eq!(data, &serde_json::to_value(&page).unwrap());
}

#[test]
fn end_to_end_payload_string() {
    let flattened = JsonString(PayloadWrapper::new(test_page()))
        .to_json()
        .expect("the page encodes");
    let text: String = serde_json::from_str(&flattened).expect("ue_pr is a JSON string");
    assert_eq!(text, WRAPPED);
    assert_eq!(
        flattened,
        "\"{\\\"schema\\\":\\\"iglu:com.snowplowanalytics.snowplow/unstruct_event/jsonschema/1-0-0\\\",\\\"data\\\":{\\\"schema\\\":\\\"iglu:com.snowplowanalytics.snowplow/screen_view/jsonschema/1-0-0\\\",\\\"data\\\":{\\\"name\\\":\\\"test\\\",\\\"id\\\":\\\"test id\\\"}}}\""
    );
}

struct Unencodable;

impl HasSchema for Unencodable {
    fn schema(&self) -> Schema {
        Schema::new("com.example", "unencodable", SchemaVersion::new(2, 10, 3))
    }
}

impl ToJson for Unencodable {
    fn to_json(&self) -> Result<String, EncodingError> {
        Err(EncodingError::new("key must be a string".to_owned()))
    }
}

#[test]
fn envelope_passes_the_payloads_error_on() {
    let error = Envelope(Unencodable).to_json().unwrap_err();
    assert_eq!(error.message, "key must be a string");
    let error = PayloadWrapper::new(Unencodable).to_json().unwrap_err();
    assert_eq!(error.message, "key must be a string");
}

#[test]
fn flattening_names_the_inner_error() {
    let error = JsonString(PayloadWrapper::new(Unencodable))
        .to_json()
        .unwrap_err();
    assert_eq!(
        error.message,
        "Error serializing to JSON string: key must be a string"
    );
}

#[test]
fn schema_renders_as_iglu_uri() {
    let schema = Schema::new("com.example", "unencodable", SchemaVersion::new(2, 10, 3));
    assert_eq!(schema.render(), "iglu:com.example/unencodable/jsonschema/2-10-3");
    assert_eq!(
        Stringify(schema).to_json().unwrap(),
        "\"iglu:com.example/unencodable/jsonschema/2-10-3\""
    );
    let snowplow = Schema::new_snowplow("payload_data", SchemaVersion::new(1, 0, 4));
    assert_eq!(snowplow.vendor, "com.snowplowanalytics.snowplow");
    assert_eq!(
        snowplow.render(),
        "iglu:com.snowplowanalytics.snowplow/payload_data/jsonschema/1-0-4"
    );
}

#[test]
fn schema_names_vendor_and_itself() {
    assert!(Schema::new("com.example", "click", SchemaVersion::new(1, 0, 0)).is_wf());
    assert!(Schema::new_snowplow("payload_data", SchemaVersion::new(1, 0, 4)).is_wf());
    assert!(test_page().schema().is_wf());
    assert!(UnstructWrapper(()).schema().is_wf());
    let nameless = Schema {
        vendor: "com.example",
        name: "",
        version: SchemaVersion::new(1, 0, 0),
    };
    assert!(!nameless.is_wf());
    let vendorless = Schema {
        vendor: "",
        name: "click",
        version: SchemaVersion::new(1, 0, 0),
    };
    assert!(!vendorless.is_wf());
}

#[test]
fn schema_version_renders_with_hyphens() {
    assert_eq!(SchemaVersion::new(1, 0, 4).render(), "1-0-4");
    assert_eq!(SchemaVersion::new(0, 0, 0).render(), "0-0-0");
    assert_eq!(
        SchemaVersion::new(u32::MAX, 10, 909).render(),
        "4294967295-10-909"
    );
    let version = SchemaVersion::new(3, 2, 1);
    assert_eq!((version.major, version.minor, version.patch), (3, 2, 1));
    assert_eq!(Stringify(version).to_json().unwrap(), "\"3-2-1\"");
}

struct Refuses;

impl Serialize for Refuses {
    fn serialize<S: Serializer>(&self, _serializer: S) -> Result<S::Ok, S::Error> {
        Err(serde::ser::Error::custom("refused"))
    }
}

impl HasSchema for Refuses {
    fn schema(&self) -> Schema {
        Schema::new("com.example", "refuses", SchemaVersion::new(1, 0, 0))
    }
}

impl ToJson for Refuses {
    fn to_json(&self) -> Result<String, EncodingError> {
        serde_json::to_string(self).map_err(|e| EncodingError::new(e.to_string()))
    }
}

#[test]
fn encoder_error_carries_the_encoders_message() {
    let error = PayloadWrapper::new(Refuses).to_json().unwrap_err();
    assert_eq!(error.message, "refused");
    let error = JsonString(PayloadWrapper::new(Refuses))
        .to_json()
        .unwrap_err();
    assert_eq!(error.message, "Error serializing to JSON string: refused");
}
