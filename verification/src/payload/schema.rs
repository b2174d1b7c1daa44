//! Iglu schema identifiers, and the capability of having one.

use crate::decimal::{decimal, print_u32};
use crate::util::Render;
use vstd::prelude::*;

verus! {

/// An Iglu schema version. Renders as `{major}-{minor}-{patch}`.
#[derive(Debug, Clone, Copy, PartialEq, Eq, Structural)]
#[allow(missing_docs)]
pub struct SchemaVersion {
    pub major: u32,
    pub minor: u32,
    pub patch: u32,
}

impl SchemaVersion {
    /// The version `{major}-{minor}-{patch}`.
    pub fn new(major: u32, minor: u32, patch: u32) -> (v: Self)
        ensures
            v == (SchemaVersion { major, minor, patch }),
    {
        Self { major, minor, patch }
    }

    /// The rendered version: the three numbers in decimal, joined by hyphens.
    pub open spec fn text(self) -> Seq<char> {
        decimal(self.major as nat) + seq!['-'] + decimal(self.minor as nat) + seq!['-'] + decimal(
            self.patch as nat,
        )
    }
}

impl Render for SchemaVersion {
    fn render(&self) -> (r: String)
        ensures
            r@ == self.text(),
    {
        let mut out = print_u32(self.major);
        out.append("-");
        out.append(print_u32(self.minor).as_str());
        out.append("-");
        out.append(print_u32(self.patch).as_str());
        proof {
            reveal_strlit("-");
        }
        out
    }
}

/// What a [`Schema`] says: its vendor, its name and its version.
pub struct SchemaView {
    /// Who publishes the schema.
    pub vendor: Seq<char>,
    /// The schema's name with that vendor.
    pub name: Seq<char>,
    /// Which version of the schema.
    pub version: SchemaVersion,
}

impl SchemaView {
    /// The schema's URI, `iglu:{vendor}/{name}/jsonschema/{version}`.
    pub open spec fn uri(self) -> Seq<char> {
        "iglu:"@ + self.vendor + seq!['/'] + self.name + "/jsonschema/"@ + self.version.text()
    }
}

/// An Iglu schema. Renders as `iglu:{vendor}/{name}/jsonschema/{version}`.
#[derive(Debug, Clone, Copy, PartialEq, Eq)]
pub struct Schema {
    /// Typically a reverse domain name, like "com.agilebits.desktop"
    pub vendor: &'static str,
    /// The name of this specific schema
    pub name: &'static str,
    /// The version of this specific schema
    pub version: SchemaVersion,
}

impl View for Schema {
    type V = SchemaView;

    open spec fn view(&self) -> SchemaView {
        SchemaView { vendor: self.vendor@, name: self.name@, version: self.version }
    }
}

/// The vendor of the protocol's own schemas.
pub open spec fn snowplow_vendor() -> Seq<char> {
    "com.snowplowanalytics.snowplow"@
}

impl Schema {
    /// A schema names its vendor and itself: neither is empty.
    pub open spec fn wf(&self) -> bool {
        self.vendor@.len() > 0 && self.name@.len() > 0
    }

    /// Whether the schema names its vendor and itself.
    pub fn is_wf(&self) -> (b: bool)
        ensures
            b == self.wf(),
    {
        !self.vendor.is_empty() && !self.name.is_empty()
    }

    /// Build a new schema. Schemas tend to be fixed to a particular type, so
    /// all the string components are `&'static str`.
    #[inline]
    #[must_use]
    pub fn new(vendor: &'static str, name: &'static str, version: SchemaVersion) -> (s: Self)
        requires
            vendor@.len() > 0,
            name@.len() > 0,
        ensures
            s.wf(),
            s@ == (SchemaView { vendor: vendor@, name: name@, version }),
    {
        Self { vendor, name, version }
    }

    /// Build a new schema whose vendor is `com.snowplowanalytics.snowplow`.
    #[inline]
    pub fn new_snowplow(name: &'static str, version: SchemaVersion) -> (s: Self)
        requires
            name@.len() > 0,
        ensures
            s.wf(),
            s@ == (SchemaView { vendor: snowplow_vendor(), name: name@, version }),
    {
        proof {
            reveal_strlit("com.snowplowanalytics.snowplow");
        }
        Self::new("com.snowplowanalytics.snowplow", name, version)
    }
}

impl Render for Schema {
    fn render(&self) -> (r: String)
        ensures
            r@ == self@.uri(),
    {
        let mut out = String::from_str("iglu:");
        out.append(self.vendor);
        out.append("/");
        out.append(self.name);
        out.append("/jsonschema/");
        out.append(self.version.render().as_str());
        proof {
            reveal_strlit("/");
        }
        out
    }
}

/// Trait for types that have a Snowplow schema.
///
/// The schema belongs to the type, not to the value: an implementation
/// returns the same schema for every value. Implementations outside this
/// crate are not held to that here, so the method carries no contract; the
/// library's own implementations state theirs.
pub trait HasSchema {
    /// Get the schema associated with this type.
    fn schema(&self) -> Schema;
}

/// Whether `value.schema()` may return `schema`.
pub open spec fn has_schema<T: HasSchema>(value: &T, schema: Schema) -> bool {
    call_ensures(T::schema, (value,), schema)
}

} // verus!
