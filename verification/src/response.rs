//! The JSON replies handed back across the C interface.
use vstd::prelude::*;
use vstd::utf8::{encode_utf8, is_ascii_chars, is_ascii_chars_encode_utf8};
use crate::json::{json_quoted, quote_json};
use crate::text::{find_zero_byte, has_zero_byte};

verus! {

/// A reply: the JSON text of its data and an error message, written as the
/// JSON fields `data` and `error`, each left out of the JSON when absent.
pub struct FfiResponse {
    pub data: Option<String>,
    pub error: Option<String>,
}

/// The view of a reply: its data text and its error message.
pub struct ResponseView {
    pub data: Option<Seq<char>>,
    pub error: Option<Seq<char>>,
}

impl View for FfiResponse {
    type V = ResponseView;

    open spec fn view(&self) -> ResponseView {
        ResponseView {
            data: match self.data {
                Some(d) => Some(d@),
                None => None,
            },
            error: match self.error {
                Some(e) => Some(e@),
                None => None,
            },
        }
    }
}

/// The view of a reply that carries data.
pub open spec fn success_view(data: Seq<char>) -> ResponseView {
    ResponseView { data: Some(data), error: None }
}

/// The view of a reply that carries an error message.
pub open spec fn error_view(message: Seq<char>) -> ResponseView {
    ResponseView { data: None, error: Some(message) }
}

/// The JSON text of a reply: an object with the field `data` holding the
/// data text, and the field `error` holding the message as a JSON string,
/// each only where present.
pub open spec fn response_json(r: ResponseView) -> Seq<char> {
    match (r.data, r.error) {
        (None, None) => "{}"@,
        (Some(d), None) => "{\"data\":"@ + d + "}"@,
        (None, Some(e)) => "{\"error\":"@ + json_quoted(e) + "}"@,
        (Some(d), Some(e)) => "{\"data\":"@ + d + ",\"error\":"@ + json_quoted(e) + "}"@,
    }
}

/// The reply sent in place of a JSON text that cannot become a C string.
pub open spec fn fallback_json() -> Seq<char> {
    "{\"error\":\"FFI: Invalid CString, potential null byte in response\"}"@
}

/// The text handed across the C interface for a reply: its JSON, unless
/// that holds a zero byte, in which case the fallback error.
pub open spec fn response_text(r: ResponseView) -> Seq<char> {
    if has_zero_byte(response_json(r)) {
        fallback_json()
    } else {
        response_json(r)
    }
}

impl FfiResponse {
    /// A reply carrying data, given as JSON text.
    pub fn success(data: String) -> (r: FfiResponse)
        ensures
            r@ == success_view(data@),
    {
        FfiResponse { data: Some(data), error: None }
    }

    /// A reply carrying the data `null`.
    pub fn success_null() -> (r: FfiResponse)
        ensures
            r@ == success_view("null"@),
    {
        FfiResponse { data: Some(String::from_str("null")), error: None }
    }

    /// A reply carrying an error message.
    pub fn error(msg: &str) -> (r: FfiResponse)
        ensures
            r@ == error_view(msg@),
    {
        FfiResponse { data: None, error: Some(msg.to_string()) }
    }

    /// The JSON text of this reply.
    pub fn to_json(&self) -> (r: String)
        ensures
            r@ == response_json(self@),
    {
        match (&self.data, &self.error) {
            (None, None) => String::from_str("{}"),
            (Some(d), None) => {
                let mut r = String::from_str("{\"data\":");
                r.append(d.as_str());
                r.append("}");
                r
            },
            (None, Some(e)) => {
                let mut r = String::from_str("{\"error\":");
                let q = quote_json(e.as_str());
                r.append(q.as_str());
                r.append("}");
                r
            },
            (Some(d), Some(e)) => {
                let mut r = String::from_str("{\"data\":");
                r.append(d.as_str());
                r.append(",\"error\":");
                let q = quote_json(e.as_str());
                r.append(q.as_str());
                r.append("}");
                r
            },
        }
    }

    /// The text handed across the C interface for this reply.
    pub fn into_json_text(self) -> (r: String)
        ensures
            r@ == response_text(self@),
    {
        let json = self.to_json();
        match find_zero_byte(json.as_str()) {
            Some(_) => String::from_str(
                "{\"error\":\"FFI: Invalid CString, potential null byte in response\"}",
            ),
            None => json,
        }
    }
}

/// The text handed across the C interface for any reply is a valid C
/// string: it holds no zero byte.
pub proof fn law_response_text_has_no_zero_byte(r: ResponseView)
    ensures
        !has_zero_byte(response_text(r)),
{
    if has_zero_byte(response_json(r)) {
        let f = fallback_json();
        reveal_strlit("{\"error\":\"FFI: Invalid CString, potential null byte in response\"}");
        assert(is_ascii_chars(f));
        is_ascii_chars_encode_utf8(f);
        assert forall|i: int| 0 <= i < encode_utf8(f).len() implies encode_utf8(f)[i] != 0 by {
            assert(f[i] as u8 == encode_utf8(f)[i]);
        }
    }
}

} // verus!
