//! JSON text: string literals, which `serde_json` writes, and the joining of
//! already written pieces.

use vstd::prelude::*;

verus! {

/// The error of `serde_json`, which is carried and never looked into.
#[verifier::external_type_specification]
#[verifier::external_body]
pub struct ExJsonError(serde_json::Error);

/// The lower-case hexadecimal digit of `n`.
pub open spec fn hex_digit(n: int) -> char {
    if n < 10 {
        (n + 48) as char
    } else {
        (n + 87) as char
    }
}

/// Whether `c` cannot stand for itself inside a JSON string literal: the
/// quote, the backslash and the control characters below the space.
pub open spec fn needs_escape(c: char) -> bool {
    c == '"' || c == '\\' || (c as int) < 0x20
}

/// What stands for `c` inside a JSON string literal: a two-character escape
/// for the quote, the backslash and the five control characters that have
/// one, `\u00` and two hexadecimal digits for every other control character,
/// and the character itself otherwise.
pub open spec fn escaped(c: char) -> Seq<char> {
    if c == '"' {
        seq!['\\', '"']
    } else if c == '\\' {
        seq!['\\', '\\']
    } else if c == '\u{8}' {
        seq!['\\', 'b']
    } else if c == '\t' {
        seq!['\\', 't']
    } else if c == '\n' {
        seq!['\\', 'n']
    } else if c == '\u{c}' {
        seq!['\\', 'f']
    } else if c == '\r' {
        seq!['\\', 'r']
    } else if (c as int) < 0x20 {
        seq!['\\', 'u', '0', '0', hex_digit(c as int / 16), hex_digit(c as int % 16)]
    } else {
        seq![c]
    }
}

/// What stands for the characters of `text`, one after the other.
pub open spec fn escaped_text(text: Seq<char>) -> Seq<char>
    decreases text.len(),
{
    if text.len() == 0 {
        Seq::empty()
    } else {
        escaped_text(text.drop_last()) + escaped(text.last())
    }
}

/// The JSON string literal of `text`: a quote, what stands for its
/// characters, and a quote.
pub open spec fn json_string_text(text: Seq<char>) -> Seq<char> {
    seq!['"'] + escaped_text(text) + seq!['"']
}

/// Calls `serde_json::to_string` on a string slice. The contract is taken on
/// trust from that crate's source: for a string the call returns no error,
/// since it writes into a vector, and what it writes is the literal that
/// `json_string_text` describes, character by character after the crate's
/// table of escapes.
#[verifier::external_body]
fn to_json_string(text: &str) -> (written: Result<String, serde_json::Error>)
    ensures
        written is Ok,
        written->Ok_0@ == json_string_text(text@),
{
    serde_json::to_string(text)
}

/// Writes `text` as a JSON string literal.
pub fn quote(text: &str) -> (literal: String)
    ensures
        literal@ == json_string_text(text@),
{
    match to_json_string(text) {
        Ok(literal) => literal,
        Err(_) => unreached(),
    }
}

/// A text in which no character needs an escape is written as it stands,
/// between two quotes.
pub proof fn plain_text_is_quoted_unchanged(text: Seq<char>)
    requires
        forall|i: int| 0 <= i < text.len() ==> !needs_escape(#[trigger] text[i]),
    ensures
        escaped_text(text) == text,
        json_string_text(text) == seq!['"'] + text + seq!['"'],
    decreases text.len(),
{
    if text.len() > 0 {
        plain_text_is_quoted_unchanged(text.drop_last());
        assert(!needs_escape(text[text.len() - 1]));
        assert(escaped(text.last()) == seq![text.last()]);
        assert(text.drop_last() + seq![text.last()] =~= text);
    }
}

/// The pieces of `parts` in order, with `separator` between neighbours.
pub open spec fn joined(parts: Seq<Seq<char>>, separator: Seq<char>) -> Seq<char>
    decreases parts.len(),
{
    if parts.len() == 0 {
        Seq::empty()
    } else if parts.len() == 1 {
        parts[0]
    } else {
        joined(parts.drop_last(), separator) + separator + parts.last()
    }
}

/// The views of the strings of `parts`, in order.
pub open spec fn texts(parts: Seq<String>) -> Seq<Seq<char>> {
    Seq::new(parts.len(), |i: int| parts[i]@)
}

/// Strings `parts` together with `separator` between neighbours.
pub fn join(parts: &Vec<String>, separator: &str) -> (text: String)
    ensures
        text@ == joined(texts(parts@), separator@),
{
    let mut text = String::new();
    let mut at: usize = 0;
    while at < parts.len()
        invariant
            at <= parts.len(),
            text@ == joined(texts(parts@).take(at as int), separator@),
        decreases parts.len() - at,
    {
        if at > 0 {
            text.append(separator);
        }
        text.append(parts[at].as_str());
        proof {
            let upto = texts(parts@).take(at + 1);
            assert(upto.drop_last() =~= texts(parts@).take(at as int));
            assert(upto.last() == parts@[at as int]@);
            assert(text@ =~= joined(upto, separator@));
        }
        at = at + 1;
    }
    assert(texts(parts@).take(at as int) =~= texts(parts@));
    text
}

} // verus!
