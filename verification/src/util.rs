//! Adapters that turn a value into a single JSON string, as the tracker
//! protocol demands for some of its fields.

use crate::decimal::{decimal, print_u32};
use crate::json::{encodes_as, encoding, quote, quoted, Encoding, EncodingError, ToJson};
use vstd::prelude::*;

verus! {

/// A value with a human-readable form.
///
/// Implementations outside this crate may print as they see fit, so the
/// method carries no contract; the library's own implementations state theirs.
pub trait Render {
    /// The value's human-readable form.
    fn render(&self) -> String;
}

/// Whether `value.render()` may return `text`.
pub open spec fn renders_as<T: Render>(value: &T, text: String) -> bool {
    call_ensures(T::render, (value,), text)
}

impl Render for u32 {
    fn render(&self) -> (r: String)
        ensures
            r@ == decimal(*self as nat),
    {
        print_u32(*self)
    }
}

/// Adapter that encodes a value as the JSON string of its human-readable
/// form. Useful for numbers and identifiers that the protocol wants as text.
#[derive(Debug, Clone, Copy, Default)]
pub struct Stringify<T>(pub T);

impl<T: Render> ToJson for Stringify<T> {
    /// Never fails; the document is the quoted form of what `render` returned.
    fn to_json(&self) -> (r: Result<String, EncodingError>)
        ensures
            exists|text: String| #[trigger]
                renders_as(&self.0, text) && encoding(r) == Ok::<Seq<char>, Seq<char>>(
                    quoted(text@),
                ),
    {
        let text = self.0.render();
        assert(renders_as(&self.0, text));
        Ok(quote(text.as_str()))
    }
}

/// What opens the message of an error raised while flattening a document
/// into a string.
pub open spec fn flatten_error_prefix() -> Seq<char> {
    "Error serializing to JSON string: "@
}

/// The encoding of a document flattened into one JSON string: the quoted
/// text of the document, or the document's own error behind
/// [`flatten_error_prefix`].
pub open spec fn flattened(inner: Encoding) -> Encoding {
    match inner {
        Ok(text) => Ok(quoted(text)),
        Err(message) => Err(flatten_error_prefix() + message),
    }
}

/// Flattens the outcome of encoding a document into the outcome of encoding
/// it as one JSON string.
pub fn flatten(inner: Result<String, EncodingError>) -> (r: Result<String, EncodingError>)
    ensures
        encoding(r) == flattened(encoding(inner)),
{
    match inner {
        Ok(text) => Ok(quote(text.as_str())),
        Err(e) => {
            let mut message = String::from_str("Error serializing to JSON string: ");
            message.append(e.message.as_str());
            Err(EncodingError::new(message))
        },
    }
}

/// Adapter that encodes a value by first writing it as a JSON document and
/// then encoding that document's text as a single JSON string.
#[derive(Debug, Clone, Copy, Default)]
pub struct JsonString<T>(pub T);

impl<T: ToJson> ToJson for JsonString<T> {
    /// The flattened form of what the inner value's `to_json` returned.
    fn to_json(&self) -> (r: Result<String, EncodingError>)
        ensures
            exists|inner: Result<String, EncodingError>| #[trigger]
                encodes_as(&self.0, inner) && encoding(r) == flattened(encoding(inner)),
    {
        let inner = self.0.to_json();
        assert(encodes_as(&self.0, inner));
        flatten(inner)
    }
}

} // verus!
