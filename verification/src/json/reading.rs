//! Reading back what was written: the string literals of [`quoted`] denote
//! the strings they were made from, and nothing is lost in between.

use crate::json::{escape, escaped, hex_digit, quoted};
use vstd::prelude::*;

verus! {

/// The value of a hexadecimal digit.
pub open spec fn hex_value(c: char) -> Option<int> {
    if '0' <= c <= '9' {
        Some(c as int - '0' as int)
    } else if 'a' <= c <= 'f' {
        Some(c as int - 'a' as int + 10)
    } else if 'A' <= c <= 'F' {
        Some(c as int - 'A' as int + 10)
    } else {
        None
    }
}

/// Reads the escape that follows a backslash, from `text[at]` on: the
/// character it denotes and the place behind it. Of the `\u` escapes only
/// those below U+0100 are read.
pub open spec fn read_escape(text: Seq<char>, at: int) -> Option<(char, int)> {
    if at < 0 || at >= text.len() {
        None
    } else if text[at] == '"' {
        Some(('"', at + 1))
    } else if text[at] == '\\' {
        Some(('\\', at + 1))
    } else if text[at] == '/' {
        Some(('/', at + 1))
    } else if text[at] == 'b' {
        Some(('\u{8}', at + 1))
    } else if text[at] == 'f' {
        Some(('\u{c}', at + 1))
    } else if text[at] == 'n' {
        Some(('\n', at + 1))
    } else if text[at] == 'r' {
        Some(('\r', at + 1))
    } else if text[at] == 't' {
        Some(('\t', at + 1))
    } else if text[at] == 'u' && at + 4 < text.len() && text[at + 1] == '0' && text[at + 2] == '0' {
        match (hex_value(text[at + 3]), hex_value(text[at + 4])) {
            (Some(high), Some(low)) => Some((((16 * high + low) as u8) as char, at + 5)),
            _ => None,
        }
    } else {
        None
    }
}

/// Reads the inside of a string literal from `text[at]` up to its closing
/// quote: the string it denotes, and the place behind the closing quote.
pub open spec fn read_string(text: Seq<char>, at: int) -> Option<(Seq<char>, int)>
    decreases text.len() - at,
{
    if at < 0 || at >= text.len() {
        None
    } else if text[at] == '"' {
        Some((Seq::empty(), at + 1))
    } else if text[at] == '\\' {
        match read_escape(text, at + 1) {
            Some((c, next)) => if at < next <= text.len() {
                match read_string(text, next) {
                    Some((rest, end)) => Some((seq![c] + rest, end)),
                    None => None,
                }
            } else {
                None
            },
            None => None,
        }
    } else if (text[at] as int) < 0x20 {
        None
    } else {
        match read_string(text, at + 1) {
            Some((rest, end)) => Some((seq![text[at]] + rest, end)),
            None => None,
        }
    }
}

/// The string that the JSON string literal `text` denotes, where it is one.
pub open spec fn unquoted(text: Seq<char>) -> Option<Seq<char>> {
    if text.len() > 0 && text[0] == '"' {
        match read_string(text, 1) {
            Some((s, end)) => if end == text.len() {
                Some(s)
            } else {
                None
            },
            None => None,
        }
    } else {
        None
    }
}

/// Reading steps over one escaped character and gives that character back.
proof fn lemma_read_one(text: Seq<char>, at: int, c: char)
    requires
        0 <= at,
        at + escape(c).len() <= text.len(),
        text.subrange(at, at + escape(c).len()) == escape(c),
    ensures
        read_string(text, at) == match read_string(text, at + escape(c).len()) {
            Some((rest, end)) => Some((seq![c] + rest, end)),
            None => None,
        },
{
    let e = escape(c);
    assert forall|i: int| 0 <= i < e.len() implies text[at + i] == e[i] by {
        assert(text.subrange(at, at + e.len())[i] == text[at + i]);
    }
    assert(text[at] == e[0]);
    if e.len() == 2 {
        assert(text[at + 1] == e[1]);
    } else if e.len() == 6 {
        assert(text[at + 1] == e[1]);
        assert(text[at + 2] == e[2]);
        assert(text[at + 3] == e[3]);
        assert(text[at + 4] == e[4]);
        assert(text[at + 5] == e[5]);
        let code = c as int;
        assert(0 <= code < 0x20);
        assert(hex_value(hex_digit(code / 16)) == Some(code / 16));
        assert(hex_value(hex_digit(code % 16)) == Some(code % 16));
        assert(((16 * (code / 16) + code % 16) as u8) as char == c);
    }
}

/// Reading the escaped form of `s`, wherever it stands in a text, stops at
/// the quote that closes it and gives `s` back.
pub proof fn lemma_read_escaped(before: Seq<char>, s: Seq<char>, after: Seq<char>)
    ensures
        read_string(before + escaped(s) + seq!['"'] + after, before.len() as int) == Some(
            (s, (before.len() + escaped(s).len() + 1) as int),
        ),
    decreases s.len(),
{
    let text = before + escaped(s) + seq!['"'] + after;
    let at = before.len() as int;
    if s.len() == 0 {
        assert(text[at] == '"');
        assert(read_string(text, at).unwrap().0 =~= s);
    } else {
        let c = s[0];
        let rest = s.drop_first();
        let stepped = before + escape(c);
        assert(text =~= stepped + escaped(rest) + seq!['"'] + after);
        lemma_read_escaped(stepped, rest, after);
        assert(text.subrange(at, at + escape(c).len()) =~= escape(c));
        lemma_read_one(text, at, c);
        assert(seq![c] + rest =~= s);
    }
}

/// A quoted string denotes the string it was made from.
pub proof fn lemma_unquoted_quoted(s: Seq<char>)
    ensures
        unquoted(quoted(s)) == Some(s),
{
    lemma_read_escaped(seq!['"'], s, Seq::empty());
    assert(quoted(s) =~= seq!['"'] + escaped(s) + seq!['"'] + Seq::<char>::empty());
}

} // verus!
