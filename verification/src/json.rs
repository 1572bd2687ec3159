//! A plain-value model of JSON values as `serde_json` reads and writes them,
//! with the parsing and quoting calls into `serde_json`.
use vstd::prelude::*;
use serde_json::Value as J;
use indexmap::IndexMap;
use crate::maps::option_entries;
use crate::text::has_zero_byte;
use vstd::utf8::{encode_utf8, is_ascii_chars, is_ascii_chars_encode_utf8};

verus! {

/// One JSON value, one level deep. Numbers, arrays and objects are carried as
/// the compact text `serde_json` writes for them; strings as their content.
#[derive(Clone, Debug, PartialEq, Eq)]
pub enum JsonValue {
    Null,
    Bool(bool),
    Number(String),
    Str(String),
    Array(String),
    Object(String),
}

/// The mathematical view of a [`JsonValue`].
pub enum JsonView {
    Null,
    Bool(bool),
    Number(Seq<char>),
    Str(Seq<char>),
    Array(Seq<char>),
    Object(Seq<char>),
}

impl View for JsonValue {
    type V = JsonView;

    open spec fn view(&self) -> JsonView {
        match self {
            JsonValue::Null => JsonView::Null,
            JsonValue::Bool(b) => JsonView::Bool(*b),
            JsonValue::Number(t) => JsonView::Number(t@),
            JsonValue::Str(t) => JsonView::Str(t@),
            JsonValue::Array(t) => JsonView::Array(t@),
            JsonValue::Object(t) => JsonView::Object(t@),
        }
    }
}

/// The view of every value of a sequence.
pub open spec fn json_views(vs: Seq<JsonValue>) -> Seq<JsonView> {
    vs.map_values(|v: JsonValue| v@)
}

/// What `serde_json::from_str::<serde_json::Value>` gives for a text:
/// the value, or the text of the parse error.
pub uninterp spec fn json_value_parse(text: Seq<char>) -> Result<JsonView, Seq<char>>;

/// What `serde_json::from_str::<Vec<serde_json::Value>>` gives for a text:
/// the elements, or the text of the parse error.
pub uninterp spec fn json_array_parse(text: Seq<char>) -> Result<Seq<JsonView>, Seq<char>>;

/// What `serde_json::from_str::<IndexMap<String, serde_json::Value>>` gives
/// for a text: the entries of the object in their order, or the text of the
/// parse error.
pub uninterp spec fn json_object_parse(text: Seq<char>) -> Result<Seq<(Seq<char>, JsonView)>, Seq<char>>;

/// The lower-case hexadecimal digit for `d` (0 to 15).
pub open spec fn hex_digit(d: int) -> char {
    if d < 10 {
        (d + 48) as char
    } else {
        (d + 87) as char
    }
}

/// How one character is written inside a JSON string: `"` and `\` and the
/// control characters with short escapes take those escapes, the other
/// control characters below 0x20 take `\u00XX`, and every other character
/// stands for itself.
pub open spec fn json_escape(c: char) -> Seq<char> {
    if c == '"' {
        seq!['\\', '"']
    } else if c == '\\' {
        seq!['\\', '\\']
    } else if c == '\u{8}' {
        seq!['\\', 'b']
    } else if c == '\t' {
        seq!['\\', 't']
    } else if c == '\n' {
        seq!['\\', 'n']
    } else if c == '\u{c}' {
        seq!['\\', 'f']
    } else if c == '\r' {
        seq!['\\', 'r']
    } else if (c as u32) < 0x20 {
        seq!['\\', 'u', '0', '0', hex_digit((c as int) / 16), hex_digit((c as int) % 16)]
    } else {
        seq![c]
    }
}

/// The characters of a text, each written as inside a JSON string.
pub open spec fn json_escaped(s: Seq<char>) -> Seq<char>
    decreases s.len(),
{
    if s.len() == 0 {
        seq![]
    } else {
        json_escape(s[0]) + json_escaped(s.drop_first())
    }
}

/// What `serde_json::to_string` writes for a string: the escaped characters
/// between double quotes.
pub open spec fn json_quoted(s: Seq<char>) -> Seq<char> {
    seq!['"'] + json_escaped(s) + seq!['"']
}

/// A character of the text `serde_json` writes for a number: a digit, a
/// sign, a decimal point or an exponent mark.
pub open spec fn is_number_char(c: char) -> bool {
    ('0' <= c && c <= '9') || c == '-' || c == '+' || c == '.' || c == 'e' || c == 'E'
}

/// The text of a JSON number as `serde_json` writes it: not empty, and
/// made of number characters only.
pub open spec fn is_number_text(t: Seq<char>) -> bool {
    t.len() > 0 && forall|i: int| 0 <= i < t.len() ==> is_number_char(#[trigger] t[i])
}

/// A number text holds no zero byte: it can always be handed to C.
pub proof fn lemma_number_text_has_no_zero_byte(t: Seq<char>)
    requires
        is_number_text(t),
    ensures
        !has_zero_byte(t),
{
    assert(is_ascii_chars(t)) by {
        assert forall|i: int| 0 <= i < t.len() implies '\0' <= #[trigger] t[i] <= '\u{7f}' by {
            assert(is_number_char(t[i]));
        }
    }
    is_ascii_chars_encode_utf8(t);
    assert forall|i: int| 0 <= i < encode_utf8(t).len() implies encode_utf8(t)[i] != 0 by {
        assert(is_number_char(t[i]));
        assert(t[i] as u8 == encode_utf8(t)[i]);
    }
}

/// The text `[]`: a JSON array with no elements.
pub open spec fn is_empty_array_text(t: Seq<char>) -> bool {
    t == seq!['[', ']']
}

/// A value read by the JSON parser: a number carries a number text.
pub open spec fn parsed_value(v: JsonView) -> bool {
    v matches JsonView::Number(t) ==> is_number_text(t)
}

/// Parses one JSON value (`serde_json::from_str::<serde_json::Value>`).
/// Claimed: the outcome is `json_value_parse` of the text; values are
/// converted variant for variant, numbers, arrays and objects by their
/// `Display` text, and errors by their `Display` text. A number's text is
/// what `Display for Number` writes: integer digits with an optional `-`
/// (itoa), or a finite float's digits, point and exponent (zmij).
#[verifier::external_body]
pub(crate) fn parse_json_value(text: &str) -> (r: Result<JsonValue, String>)
    ensures
        match (r, json_value_parse(text@)) {
            (Ok(v), Ok(w)) => v@ == w,
            (Err(e), Err(m)) => e@ == m,
            _ => false,
        },
        r matches Ok(v) ==> parsed_value(v@),
{
    match serde_json::from_str::<J>(text) {
        Ok(J::Null) => Ok(JsonValue::Null),
        Ok(J::Bool(b)) => Ok(JsonValue::Bool(b)),
        Ok(J::Number(n)) => Ok(JsonValue::Number(n.to_string())),
        Ok(J::String(s)) => Ok(JsonValue::Str(s)),
        Ok(v @ J::Array(_)) => Ok(JsonValue::Array(v.to_string())),
        Ok(v) => Ok(JsonValue::Object(v.to_string())),
        Err(e) => Err(e.to_string()),
    }
}

/// Parses a JSON array (`serde_json::from_str::<Vec<serde_json::Value>>`).
/// Claimed: the outcome is `json_array_parse` of the text, each element
/// converted as in [`parse_json_value`]; the text `[]` is the empty array.
#[verifier::external_body]
pub(crate) fn parse_json_array(text: &str) -> (r: Result<Vec<JsonValue>, String>)
    ensures
        match (r, json_array_parse(text@)) {
            (Ok(v), Ok(w)) => json_views(v@) == w && (is_empty_array_text(text@) ==> v@.len() == 0),
            (Err(e), Err(m)) => e@ == m && !is_empty_array_text(text@),
            _ => false,
        },
        r matches Ok(v) ==> forall|i: int| 0 <= i < v@.len() ==> parsed_value(#[trigger] v@[i]@),
{
    let items: Vec<J> = match serde_json::from_str(text) { Ok(v) => v, Err(e) => return Err(e.to_string()) };
    let mut out = Vec::new();
    for v in items {
        out.push(match v {
            J::Null => JsonValue::Null,
            J::Bool(b) => JsonValue::Bool(b),
            J::Number(n) => JsonValue::Number(n.to_string()),
            J::String(s) => JsonValue::Str(s),
            J::Array(_) => JsonValue::Array(v.to_string()),
            J::Object(_) => JsonValue::Object(v.to_string()),
        });
    }
    Ok(out)
}

/// Parses a JSON object into an insertion-ordered map
/// (`serde_json::from_str::<IndexMap<String, serde_json::Value>>`).
/// Claimed: the outcome is `json_object_parse` of the text, each value
/// converted as in [`parse_json_value`].
#[verifier::external_body]
pub(crate) fn parse_json_object(text: &str) -> (r: Result<IndexMap<String, JsonValue>, String>)
    ensures
        match (r, json_object_parse(text@)) {
            (Ok(m), Ok(w)) => option_entries(m) == w,
            (Err(e), Err(m)) => e@ == m,
            _ => false,
        },
        r matches Ok(m) ==> forall|i: int|
            0 <= i < option_entries(m).len() ==> parsed_value(#[trigger] option_entries(m)[i].1),
{
    let entries: IndexMap<String, J> = match serde_json::from_str(text) { Ok(m) => m, Err(e) => return Err(e.to_string()) };
    let mut out = IndexMap::new();
    for (k, v) in entries {
        out.insert(k, match v {
            J::Null => JsonValue::Null,
            J::Bool(b) => JsonValue::Bool(b),
            J::Number(n) => JsonValue::Number(n.to_string()),
            J::String(s) => JsonValue::Str(s),
            J::Array(_) => JsonValue::Array(v.to_string()),
            J::Object(_) => JsonValue::Object(v.to_string()),
        });
    }
    Ok(out)
}

/// Writes a string as a JSON string literal (`serde_json::to_string` on a
/// `str`, which escapes by the table `ESCAPE` in its `ser.rs`). Claimed: the
/// result is `json_quoted` of the string; writing a string cannot fail, so
/// the error arm is never taken.
#[verifier::external_body]
pub(crate) fn quote_json(s: &str) -> (r: String)
    ensures
        r@ == json_quoted(s@),
{
    match serde_json::to_string(s) {
        Ok(t) => t,
        Err(_) => String::new(),
    }
}

} // verus!
