//! The JSON text that the tracker protocol is written in.
//!
//! Documents are modelled as sequences of characters. Strings are quoted by
//! `serde_json`; objects and arrays are framed here, in `serde_json`'s compact
//! layout (no whitespace, members in the order given).

pub mod reading;

use vstd::prelude::*;

verus! {

/// The lower-case hexadecimal digit for `n` in `0..16`.
pub open spec fn hex_digit(n: int) -> char {
    seq!['0', '1', '2', '3', '4', '5', '6', '7', '8', '9', 'a', 'b', 'c', 'd', 'e', 'f'][n]
}

/// How one character stands inside a JSON string literal: the quote, the
/// backslash and the control characters below U+0020 are escaped, everything
/// else stands for itself.
pub open spec fn escape(c: char) -> Seq<char> {
    if c == '"' {
        seq!['\\', '"']
    } else if c == '\\' {
        seq!['\\', '\\']
    } else if c == '\u{8}' {
        seq!['\\', 'b']
    } else if c == '\u{c}' {
        seq!['\\', 'f']
    } else if c == '\n' {
        seq!['\\', 'n']
    } else if c == '\r' {
        seq!['\\', 'r']
    } else if c == '\t' {
        seq!['\\', 't']
    } else if (c as int) < 0x20 {
        seq!['\\', 'u', '0', '0', hex_digit(c as int / 16), hex_digit(c as int % 16)]
    } else {
        seq![c]
    }
}

/// The characters of `s`, each escaped, in order.
pub open spec fn escaped(s: Seq<char>) -> Seq<char>
    decreases s.len(),
{
    if s.len() == 0 {
        Seq::empty()
    } else {
        escape(s[0]) + escaped(s.drop_first())
    }
}

/// The JSON string literal that denotes `s`.
pub open spec fn quoted(s: Seq<char>) -> Seq<char> {
    seq!['"'] + escaped(s) + seq!['"']
}

/// Whether `c` stands for itself inside a JSON string literal.
pub open spec fn is_plain(c: char) -> bool {
    c != '"' && c != '\\' && (c as int) >= 0x20
}

/// A string of plain characters is quoted by putting it between double
/// quotes.
pub proof fn lemma_quoted_plain(s: Seq<char>)
    requires
        forall|i: int| 0 <= i < s.len() ==> is_plain(#[trigger] s[i]),
    ensures
        escaped(s) == s,
        quoted(s) == seq!['"'] + s + seq!['"'],
    decreases s.len(),
{
    if s.len() > 0 {
        let rest = s.drop_first();
        assert forall|i: int| 0 <= i < rest.len() implies is_plain(#[trigger] rest[i]) by {
            assert(rest[i] == s[i + 1]);
        }
        lemma_quoted_plain(rest);
        assert(escape(s[0]) == seq![s[0]]);
        assert(seq![s[0]] + rest =~= s);
    }
}

/// `items` separated by commas.
pub open spec fn joined(items: Seq<Seq<char>>) -> Seq<char>
    decreases items.len(),
{
    if items.len() == 0 {
        Seq::empty()
    } else if items.len() == 1 {
        items[0]
    } else {
        joined(items.drop_last()) + seq![','] + items.last()
    }
}

/// The JSON array whose elements are the documents `items`.
pub open spec fn array(items: Seq<Seq<char>>) -> Seq<char> {
    seq!['['] + joined(items) + seq![']']
}

/// One member of a JSON object: the quoted key, a colon, the value's document.
pub open spec fn member(m: (Seq<char>, Seq<char>)) -> Seq<char> {
    quoted(m.0) + seq![':'] + m.1
}

/// Whether one of `members` stands under `key`.
pub open spec fn has_key(members: Seq<(Seq<char>, Seq<char>)>, key: Seq<char>) -> bool {
    exists|i: int| 0 <= i < members.len() && (#[trigger] members[i]).0 == key
}

/// The JSON object with the given `(key, value document)` members, in order.
pub open spec fn object(members: Seq<(Seq<char>, Seq<char>)>) -> Seq<char> {
    seq!['{'] + joined(members.map_values(|m: (Seq<char>, Seq<char>)| member(m))) + seq!['}']
}

/// `serde_json::Error`, of which nothing is known here.
#[verifier::external_type_specification]
#[verifier::external_body]
pub struct ExJsonError(serde_json::Error);

/// `serde_json::to_string` on a string slice. The call writes the literal into
/// a buffer in memory, which cannot fail, and a string slice has no way to
/// refuse serialisation, so the result is always `Ok`. The literal is the
/// slice between double quotes with exactly the escapes of [`escape`].
#[verifier::external_body]
fn encode_str(s: &str) -> (r: Result<String, serde_json::Error>)
    ensures
        r is Ok,
        r->Ok_0@ == quoted(s@),
{
    serde_json::to_string(s)
}

/// The JSON string literal for `s`, as `serde_json` writes it.
pub fn quote(s: &str) -> (r: String)
    ensures
        r@ == quoted(s@),
{
    match encode_str(s) {
        Ok(t) => t,
        Err(_) => vstd::pervasive::unreached(),
    }
}

/// Why a value could not be written as JSON.
#[derive(Debug, Clone)]
pub struct EncodingError {
    /// The encoder's message.
    pub message: String,
}

impl View for EncodingError {
    type V = Seq<char>;

    open spec fn view(&self) -> Seq<char> {
        self.message@
    }
}

impl EncodingError {
    /// An error with the given message.
    pub fn new(message: String) -> (e: EncodingError)
        ensures
            e@ == message@,
    {
        EncodingError { message }
    }
}

/// The outcome of encoding a value, as a contract sees it: the document's
/// text, or the error's message.
pub type Encoding = Result<Seq<char>, Seq<char>>;

/// The outcome `r` as a contract sees it.
pub open spec fn encoding(r: Result<String, EncodingError>) -> Encoding {
    match r {
        Ok(text) => Ok(text@),
        Err(e) => Err(e@),
    }
}

/// A value that can be written as a JSON document.
///
/// Implementations for payload types are free to encode as they see fit, so
/// the method carries no contract; the library's own implementations state
/// theirs.
pub trait ToJson {
    /// The value's JSON document, or the reason why it has none.
    fn to_json(&self) -> Result<String, EncodingError>;
}

/// Whether `value.to_json()` may return `r`.
pub open spec fn encodes_as<T: ToJson>(value: &T, r: Result<String, EncodingError>) -> bool {
    call_ensures(T::to_json, (value,), r)
}

/// The documents held by `items`.
pub open spec fn texts(items: Seq<String>) -> Seq<Seq<char>> {
    items.map_values(|s: String| s@)
}

/// `items` separated by commas.
pub fn join(items: &Vec<String>) -> (r: String)
    ensures
        r@ == joined(texts(items@)),
{
    let mut out = String::new();
    let mut i: usize = 0;
    while i < items.len()
        invariant
            i <= items.len(),
            out@ == joined(texts(items@).take(i as int)),
        decreases items.len() - i,
    {
        proof {
            let head = texts(items@).take(i as int + 1);
            assert(head.drop_last() =~= texts(items@).take(i as int));
            assert(head.last() == items@[i as int]@);
            reveal_strlit(",");
        }
        if i > 0 {
            out.append(",");
        }
        out.append(items[i].as_str());
        i = i + 1;
    }
    assert(texts(items@).take(i as int) =~= texts(items@));
    out
}

/// The JSON array whose elements are the documents in `items`.
pub fn array_text(items: &Vec<String>) -> (r: String)
    ensures
        r@ == array(texts(items@)),
{
    let mut out = String::from_str("[");
    let inner = join(items);
    out.append(inner.as_str());
    out.append("]");
    proof {
        reveal_strlit("[");
        reveal_strlit("]");
    }
    out
}

/// Whether `outcomes` records an attempt to encode `items` one after the
/// other that stopped at the first failure: one outcome for each element up
/// to and including the first that failed, or one for every element where
/// none did.
pub open spec fn attempts<T: ToJson>(
    items: Seq<T>,
    outcomes: Seq<Result<String, EncodingError>>,
) -> bool {
    &&& outcomes.len() <= items.len()
    &&& forall|i: int| 0 <= i < outcomes.len() ==> encodes_as(&items[i], #[trigger] outcomes[i])
    &&& forall|i: int| 0 <= i < outcomes.len() - 1 ==> (#[trigger] outcomes[i]) is Ok
    &&& outcomes.len() < items.len() ==> outcomes.len() > 0 && outcomes.last() is Err
}

/// The encoding of an array after the attempt `outcomes` on its elements: the
/// error of the element that failed, or the array of all the documents.
pub open spec fn array_of(outcomes: Seq<Encoding>) -> Encoding {
    if outcomes.len() > 0 && outcomes.last() is Err {
        Err(outcomes.last()->Err_0)
    } else {
        Ok(array(outcomes.map_values(|o: Encoding| o->Ok_0)))
    }
}

impl<T: ToJson> ToJson for Vec<T> {
    /// The array of the elements' documents, in order; or the error of the
    /// first element that failed, the elements behind it left alone.
    fn to_json(&self) -> (r: Result<String, EncodingError>)
        ensures
            exists|outcomes: Seq<Result<String, EncodingError>>| #[trigger]
                attempts(self@, outcomes) && encoding(r) == array_of(
                    outcomes.map_values(|o: Result<String, EncodingError>| encoding(o)),
                ),
    {
        let mut parts: Vec<String> = Vec::new();
        let ghost mut outcomes: Seq<Result<String, EncodingError>> = Seq::empty();
        let mut i: usize = 0;
        while i < self.len()
            invariant
                i <= self.len(),
                parts@.len() == i,
                outcomes.len() == i,
                forall|k: int| 0 <= k < i ==> encodes_as(&self@[k], #[trigger] outcomes[k]),
                forall|k: int|
                    0 <= k < i ==> (#[trigger] outcomes[k]) == Ok::<String, EncodingError>(
                        parts@[k],
                    ),
            decreases self.len() - i,
        {
            let item = self[i].to_json();
            proof {
                assert(encodes_as(&self@[i as int], item));
                outcomes = outcomes.push(item);
            }
            match item {
                Ok(text) => {
                    parts.push(text);
                },
                Err(e) => {
                    assert(attempts(self@, outcomes));
                    return Err(e);
                },
            }
            i = i + 1;
        }
        proof {
            assert(attempts(self@, outcomes));
            assert(outcomes.map_values(|o: Result<String, EncodingError>| encoding(o)).map_values(
                |o: Encoding| o->Ok_0,
            ) =~= texts(parts@));
        }
        Ok(array_text(&parts))
    }
}

/// A member of a JSON object under construction: its key, and its value as a
/// finished document.
pub struct Member {
    /// The key, as the string that it is: quoting is the member's business.
    pub key: String,
    /// The value's document.
    pub value: String,
}

impl View for Member {
    type V = (Seq<char>, Seq<char>);

    open spec fn view(&self) -> (Seq<char>, Seq<char>) {
        (self.key@, self.value@)
    }
}

impl Member {
    /// The member `key: value`.
    pub fn new(key: &str, value: String) -> (m: Member)
        ensures
            m@ == (key@, value@),
    {
        Member { key: String::from_str(key), value }
    }

    /// The member as it stands in the object's text.
    pub fn text(&self) -> (r: String)
        ensures
            r@ == member(self@),
    {
        let mut out = quote(self.key.as_str());
        out.append(":");
        out.append(self.value.as_str());
        proof {
            reveal_strlit(":");
        }
        out
    }
}

/// The `(key, value document)` pairs held by `members`.
pub open spec fn member_views(members: Seq<Member>) -> Seq<(Seq<char>, Seq<char>)> {
    members.map_values(|m: Member| m@)
}

/// The JSON object with the given members, in order.
pub fn object_text(members: &Vec<Member>) -> (r: String)
    ensures
        r@ == object(member_views(members@)),
{
    let mut parts: Vec<String> = Vec::new();
    let mut i: usize = 0;
    while i < members.len()
        invariant
            i <= members.len(),
            parts@.len() == i,
            forall|k: int| 0 <= k < i ==> (#[trigger] parts@[k])@ == member(members@[k]@),
        decreases members.len() - i,
    {
        parts.push(members[i].text());
        i = i + 1;
    }
    let mut out = String::from_str("{");
    let inner = join(&parts);
    out.append(inner.as_str());
    out.append("}");
    proof {
        reveal_strlit("{");
        reveal_strlit("}");
        assert(texts(parts@) =~= member_views(members@).map_values(
            |m: (Seq<char>, Seq<char>)| member(m),
        ));
    }
    out
}

} // verus!
