//! JSON text for the two documents the service sends. Strings and numbers are
//! serialised by `serde_json`; the documents are framed here.

use vstd::prelude::*;

verus! {

/// The error type of `serde_json`, carried through unread.
#[verifier::external_type_specification]
#[verifier::external_body]
pub struct ExJsonError(serde_json::Error);

/// The lower-case hexadecimal digit for `n`, where `0 <= n < 16`.
pub open spec fn hex_digit(n: int) -> char {
    seq!['0', '1', '2', '3', '4', '5', '6', '7', '8', '9', 'a', 'b', 'c', 'd', 'e', 'f'][n]
}

/// Whether `c` stands for itself inside a JSON string: every character but the
/// double quote, the backslash and the control characters below U+0020.
pub open spec fn is_plain(c: char) -> bool {
    c != '"' && c != '\\' && c as int >= 0x20
}

/// What one character becomes inside a JSON string.
pub open spec fn escaped_char(c: char) -> Seq<char> {
    if c == '"' {
        seq!['\\', '"']
    } else if c == '\\' {
        seq!['\\', '\\']
    } else if c == '\u{08}' {
        seq!['\\', 'b']
    } else if c == '\t' {
        seq!['\\', 't']
    } else if c == '\n' {
        seq!['\\', 'n']
    } else if c == '\u{0c}' {
        seq!['\\', 'f']
    } else if c == '\r' {
        seq!['\\', 'r']
    } else if (c as int) < 0x20 {
        seq!['\\', 'u', '0', '0', hex_digit(c as int / 16), hex_digit(c as int % 16)]
    } else {
        seq![c]
    }
}

/// The characters of `text` with each one escaped as a JSON string needs.
pub open spec fn escaped(text: Seq<char>) -> Seq<char>
    decreases text.len(),
{
    if text.len() == 0 {
        Seq::empty()
    } else {
        escaped(text.drop_last()) + escaped_char(text.last())
    }
}

/// `text` as a JSON string: escaped, between double quotes.
pub open spec fn quoted(text: Seq<char>) -> Seq<char> {
    seq!['"'] + escaped(text) + seq!['"']
}

/// The decimal digit for `d`, where `0 <= d < 10`.
pub open spec fn digit(d: nat) -> char {
    seq!['0', '1', '2', '3', '4', '5', '6', '7', '8', '9'][d as int]
}

/// `n` in decimal, without sign or leading zeros.
pub open spec fn decimal(n: nat) -> Seq<char>
    decreases n,
{
    if n < 10 {
        seq![digit(n)]
    } else {
        decimal(n / 10).push(digit(n % 10))
    }
}

/// The document that reports an error: one member, `error`.
pub open spec fn error_document(message: Seq<char>) -> Seq<char> {
    "{\"error\":"@ + quoted(message) + "}"@
}

/// The document for one creature: `name`, then `hp`.
pub open spec fn record_document(name: Seq<char>, hp: u16) -> Seq<char> {
    "{\"name\":"@ + quoted(name) + ",\"hp\":"@ + decimal(hp as nat) + "}"@
}

/// A text of plain characters is escaped to itself.
pub proof fn lemma_escaped_plain(text: Seq<char>)
    requires
        forall|i: int| 0 <= i < text.len() ==> is_plain(#[trigger] text[i]),
    ensures
        escaped(text) == text,
    decreases text.len(),
{
    if text.len() > 0 {
        let shorter = text.drop_last();
        assert forall|i: int| 0 <= i < shorter.len() implies is_plain(#[trigger] shorter[i]) by {
            assert(shorter[i] == text[i]);
        }
        lemma_escaped_plain(shorter);
        assert(is_plain(text[text.len() - 1]));
        assert(escaped_char(text.last()) =~= seq![text.last()]);
        assert(escaped(text) =~= text);
    } else {
        assert(escaped(text) =~= text);
    }
}

/// Calls `serde_json::to_string` on a string slice. That function writes an
/// opening double quote, the slice with `"` and `\` behind a backslash, the
/// control characters below U+0020 as `\b`, `\t`, `\n`, `\f`, `\r` or `\u00xx`
/// in lower-case hexadecimal, every other character as it is, and a closing
/// double quote. It writes into memory and serialising a string has no step
/// that fails, so the result is `Ok`.
#[verifier::external_body]
fn string_to_json(text: &str) -> (out: Result<String, serde_json::Error>)
    ensures
        out is Ok,
        out->Ok_0@ == quoted(text@),
{
    serde_json::to_string(text)
}

/// Calls `serde_json::to_string` on an unsigned 16-bit integer. That function
/// writes the integer in decimal, without sign or leading zeros. It writes into
/// memory and serialising an integer has no step that fails, so the result is
/// `Ok`.
#[verifier::external_body]
fn number_to_json(value: u16) -> (out: Result<String, serde_json::Error>)
    ensures
        out is Ok,
        out->Ok_0@ == decimal(value as nat),
{
    serde_json::to_string(&value)
}

/// Returns `text` as a JSON string.
pub fn quote(text: &str) -> (json: String)
    ensures
        json@ == quoted(text@),
{
    match string_to_json(text) {
        Ok(json) => json,
        Err(_) => unreached(),
    }
}

/// Returns `value` as a JSON number.
pub fn number(value: u16) -> (json: String)
    ensures
        json@ == decimal(value as nat),
{
    match number_to_json(value) {
        Ok(json) => json,
        Err(_) => unreached(),
    }
}

/// Returns the JSON document that reports `message` as an error.
pub fn error_body(message: &str) -> (body: String)
    ensures
        body@ == error_document(message@),
{
    let mut body = String::from_str("{\"error\":");
    body.append(quote(message).as_str());
    body.append("}");
    body
}

/// Returns the JSON document for the creature called `name` with `hp` hit
/// points.
pub fn record_body(name: &str, hp: u16) -> (body: String)
    ensures
        body@ == record_document(name@, hp),
{
    let mut body = String::from_str("{\"name\":");
    body.append(quote(name).as_str());
    body.append(",\"hp\":");
    body.append(number(hp).as_str());
    body.append("}");
    body
}

} // verus!
