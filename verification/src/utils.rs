//! Error-code texts and C string decoding.
use vstd::prelude::*;
use vstd::utf8::{decode_utf8, valid_utf8};
use crate::error::{Error, ErrorView};
use crate::text::{decimal, int_text, lossy_utf8, utf8_lossy};

verus! {

/// What looking up an mpv error code gave: the library was not loaded,
/// `mpv_error_string` returned no string, or it returned these bytes.
pub enum ErrorLookup {
    NotLoaded,
    Missing,
    Text(Vec<u8>),
}

/// The text for an mpv error code, given what its lookup gave.
pub open spec fn error_text(err: int, lookup: ErrorLookup) -> Seq<char> {
    match lookup {
        ErrorLookup::NotLoaded => "Mpv error code "@ + decimal(err) + " (Library not loaded)"@,
        ErrorLookup::Missing => "Unknown error"@,
        ErrorLookup::Text(bytes) => lossy_utf8(bytes@),
    }
}

/// The text for an mpv error code: the library's own description, decoded
/// leniently, "Unknown error" where it has none, and a text naming the code
/// where the library is not loaded.
pub fn error_string(err: i32, lookup: ErrorLookup) -> (r: String)
    ensures
        r@ == error_text(err as int, lookup),
        lookup matches ErrorLookup::Text(b) ==> (valid_utf8(b@) ==> r@ == decode_utf8(b@)),
{
    match lookup {
        ErrorLookup::NotLoaded => {
            let mut r = String::from_str("Mpv error code ");
            let code = int_text(err as i64);
            r.append(code.as_str());
            r.append(" (Library not loaded)");
            r
        },
        ErrorLookup::Missing => String::from_str("Unknown error"),
        ErrorLookup::Text(bytes) => utf8_lossy(bytes.as_slice()),
    }
}

/// The text of a C string: empty for a null pointer, else its bytes decoded
/// leniently as UTF-8.
pub fn cstr_to_string(bytes: Option<&[u8]>) -> (r: String)
    ensures
        r@ == match bytes {
            None => Seq::<char>::empty(),
            Some(b) => lossy_utf8(b@),
        },
        bytes matches Some(b) ==> (valid_utf8(b@) ==> r@ == decode_utf8(b@)),
{
    match bytes {
        None => String::new(),
        Some(b) => utf8_lossy(b),
    }
}

/// The error for a failed `mpv_set_option_string` call, if it failed.
pub fn option_status(name: &str, code: i32, lookup: ErrorLookup) -> (r: Result<(), Error>)
    ensures
        r is Ok <==> code >= 0,
        r matches Err(e) ==> e@ == (ErrorView::SetOption {
            name: name@,
            message: error_text(code as int, lookup),
        }),
{
    if code < 0 {
        Err(Error::SetOption { name: name.to_string(), message: error_string(code, lookup) })
    } else {
        Ok(())
    }
}

/// The error for a failed `mpv_observe_property` call, if it failed.
pub fn observe_status(name: &str, code: i32, lookup: ErrorLookup) -> (r: Result<(), Error>)
    ensures
        r is Ok <==> code >= 0,
        r matches Err(e) ==> e@ == (ErrorView::PropertyObserve {
            name: name@,
            message: error_text(code as int, lookup),
        }),
{
    if code < 0 {
        Err(Error::PropertyObserve { name: name.to_string(), message: error_string(code, lookup) })
    } else {
        Ok(())
    }
}

/// The error for a failed `mpv_initialize` call, if it failed.
pub fn initialize_status(code: i32, lookup: ErrorLookup) -> (r: Result<(), Error>)
    ensures
        r is Ok <==> code >= 0,
        r matches Err(e) ==> e@ == ErrorView::Initialize(error_text(code as int, lookup)),
{
    if code < 0 {
        Err(Error::Initialize(error_string(code, lookup)))
    } else {
        Ok(())
    }
}

/// The error for a failed `mpv_command` call, if it failed.
pub fn command_status(name: &str, code: i32, lookup: ErrorLookup) -> (r: Result<(), Error>)
    ensures
        r is Ok <==> code >= 0,
        r matches Err(e) ==> e@ == (ErrorView::Command {
            name: name@,
            message: error_text(code as int, lookup),
        }),
{
    if code < 0 {
        Err(Error::Command { name: name.to_string(), message: error_string(code, lookup) })
    } else {
        Ok(())
    }
}

/// The error for a failed `mpv_set_property` or `mpv_get_property` call,
/// if it failed.
pub fn property_status(name: &str, code: i32, lookup: ErrorLookup) -> (r: Result<(), Error>)
    ensures
        r is Ok <==> code >= 0,
        r matches Err(e) ==> e@ == (ErrorView::Property {
            name: name@,
            message: error_text(code as int, lookup),
        }),
{
    if code < 0 {
        Err(Error::Property { name: name.to_string(), message: error_string(code, lookup) })
    } else {
        Ok(())
    }
}

} // verus!
