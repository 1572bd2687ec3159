//! The requests that arrive across the C interface: checking their
//! arguments, and the replies sent for their outcomes.
use vstd::prelude::*;
use vstd::utf8::{decode_utf8, valid_utf8};
use crate::command::{command_arg_text, command_args, law_arguments_passed_verbatim};
use crate::error::{error_message, Error};
use crate::format::MpvFormat;
use crate::json::{
    is_empty_array_text, json_array_parse, json_object_parse, json_value_parse, json_views, parse_json_array,
    parse_json_object, parse_json_value, parsed_value, JsonValue, JsonView,
};
use crate::maps::option_entries;
use indexmap::IndexMap;
use crate::response::{error_view, success_view, FfiResponse, ResponseView};
use crate::text::utf8_text;

verus! {

/// The text of a C string argument, when it is present and UTF-8.
pub open spec fn c_text(arg: Option<Seq<u8>>) -> Option<Seq<char>> {
    match arg {
        Some(b) => if valid_utf8(b) {
            Some(decode_utf8(b))
        } else {
            None
        },
        None => None,
    }
}

/// A command to run: its name and argument strings.
pub struct CommandRequest {
    pub name: String,
    pub args: Vec<String>,
}

/// The view of a list of strings.
pub open spec fn texts_view(s: Seq<String>) -> Seq<Seq<char>> {
    s.map_values(|t: String| t@)
}

/// What a command request comes to: the command's name and arguments, or
/// the message it is refused with. The arguments are a JSON array, of which
/// each element gives one argument string; absent or empty arguments give
/// none.
pub open spec fn command_request(mpv_present: bool, name: Option<Seq<u8>>, args: Option<Seq<u8>>) -> Result<
    (Seq<char>, Seq<Seq<char>>),
    Seq<char>,
> {
    if !mpv_present || name is None {
        Err("Null pointer passed for mpv or name"@)
    } else if c_text(name) is None {
        Err("Invalid name string (not valid UTF-8)"@)
    } else {
        let n = c_text(name)->0;
        match args {
            None => Ok((n, seq![])),
            Some(a) => if c_text(args) is None {
                Err("Invalid args_json string (not valid UTF-8)"@)
            } else if c_text(args)->0.len() == 0 {
                Ok((n, seq![]))
            } else {
                match json_array_parse(c_text(args)->0) {
                    Err(m) => Err("Failed to parse args_json (expected array): "@ + m),
                    Ok(vs) => Ok((n, vs.map_values(|v: JsonView| command_arg_text(v)))),
                }
            },
        }
    }
}

/// Command arguments that give no argument at all: none, the empty text,
/// or the empty JSON array `[]`.
pub open spec fn no_arguments(args: Option<Seq<u8>>) -> bool {
    ||| args is None
    ||| c_text(args) == Some(Seq::<char>::empty())
    ||| (c_text(args) matches Some(t) && is_empty_array_text(t))
}

/// Checks a command request: whether the player and the name are there,
/// whether the name and the arguments are UTF-8, and whether the arguments
/// form a JSON array; gives the command to run, or the reply that refuses it.
pub fn prepare_command(mpv_present: bool, name: Option<&[u8]>, args: Option<&[u8]>) -> (r: Result<
    CommandRequest,
    FfiResponse,
>)
    ensures
        match (r, command_request(mpv_present, opt_bytes(name), opt_bytes(args))) {
            (Ok(req), Ok(expected)) => req.name@ == expected.0 && texts_view(req.args@)
                == expected.1,
            (Err(resp), Err(message)) => resp@ == error_view(message),
            _ => false,
        },
        mpv_present && c_text(opt_bytes(name)) is Some && no_arguments(opt_bytes(args)) ==> (r matches Ok(
            req,
        ) && req.name@ == c_text(opt_bytes(name))->0 && req.args@.len() == 0),
{
    if !mpv_present || name.is_none() {
        return Err(FfiResponse::error("Null pointer passed for mpv or name"));
    }
    let name_text = match utf8_text(name.unwrap()) {
        Some(t) => t,
        None => { return Err(FfiResponse::error("Invalid name string (not valid UTF-8)")) },
    };
    let args_bytes = match args {
        None => {
            let empty: Vec<String> = Vec::new();
            assert(texts_view(empty@) =~= seq![]);
            return Ok(CommandRequest { name: name_text.to_string(), args: empty });
        },
        Some(b) => b,
    };
    let args_text = match utf8_text(args_bytes) {
        Some(t) => t,
        None => { return Err(FfiResponse::error("Invalid args_json string (not valid UTF-8)")) },
    };
    if args_text.is_empty() {
        let empty: Vec<String> = Vec::new();
        assert(texts_view(empty@) =~= seq![]);
        return Ok(CommandRequest { name: name_text.to_string(), args: empty });
    }
    match parse_json_array(args_text) {
        Err(e) => {
            let mut m = String::from_str("Failed to parse args_json (expected array): ");
            m.append(e.as_str());
            Err(FfiResponse::error(m.as_str()))
        },
        Ok(values) => {
            let strings = command_args(&values);
            proof {
                assert(texts_view(strings@) =~= json_views(values@).map_values(
                    |v: JsonView| command_arg_text(v),
                ));
            }
            Ok(CommandRequest { name: name_text.to_string(), args: strings })
        },
    }
}

/// The bytes of an optional C string argument.
pub open spec fn opt_bytes(arg: Option<&[u8]>) -> Option<Seq<u8>> {
    match arg {
        Some(b) => Some(b@),
        None => None,
    }
}

/// The reply to a command that was run: `null` data on success, else the
/// error's text.
pub fn command_response(outcome: &Result<(), Error>) -> (r: FfiResponse)
    ensures
        r@ == match outcome {
            Ok(()) => success_view("null"@),
            Err(e) => error_view("mpv command failed: "@ + error_message(e@)),
        },
{
    match outcome {
        Ok(()) => FfiResponse::success_null(),
        Err(e) => {
            let mut m = String::from_str("mpv command failed: ");
            let t = e.message();
            m.append(t.as_str());
            FfiResponse::error(m.as_str())
        },
    }
}

/// A value to set a property to: a flag, a number (by its JSON text; mpv
/// receives it as a double), or a string.
#[derive(Clone, Debug, PartialEq, Eq)]
pub enum PropertyInput {
    Flag(bool),
    Double(String),
    Text(String),
}

/// The view of a [`PropertyInput`]: the JSON value it came from.
pub open spec fn input_view(p: PropertyInput) -> JsonView {
    match p {
        PropertyInput::Flag(b) => JsonView::Bool(b),
        PropertyInput::Double(t) => JsonView::Number(t@),
        PropertyInput::Text(s) => JsonView::Str(s@),
    }
}

/// Whether a JSON value can be set as a property: flags, numbers and strings
/// can, other values cannot.
pub open spec fn settable(v: JsonView) -> bool {
    v is Bool || v is Number || v is Str
}

/// What a request to set a property comes to: the property's name and the
/// JSON value to set it to, or the message it is refused with.
pub open spec fn set_property_request(
    mpv_present: bool,
    name: Option<Seq<u8>>,
    value: Option<Seq<u8>>,
) -> Result<(Seq<char>, JsonView), Seq<char>> {
    if !mpv_present || name is None || value is None {
        Err("Null pointer passed to set_property"@)
    } else if c_text(name) is None {
        Err("Invalid name string (not valid UTF-8)"@)
    } else if c_text(value) is None {
        Err("Invalid value string (not valid UTF-8)"@)
    } else {
        match json_value_parse(c_text(value)->0) {
            Err(_) => Err("Failed to parse value"@),
            Ok(v) => if settable(v) {
                Ok((c_text(name)->0, v))
            } else {
                Err("Unsupported value type for property"@)
            },
        }
    }
}

/// The value a JSON value sets a property to, where it can set one.
pub fn property_input(v: JsonValue) -> (r: Option<PropertyInput>)
    ensures
        match r {
            Some(p) => settable(v@) && input_view(p) == v@,
            None => !settable(v@),
        },
{
    match v {
        JsonValue::Bool(b) => Some(PropertyInput::Flag(b)),
        JsonValue::Number(t) => Some(PropertyInput::Double(t)),
        JsonValue::Str(s) => Some(PropertyInput::Text(s)),
        _ => None,
    }
}

/// Checks a request to set a property: whether the player, the name and the
/// value are there, whether name and value are UTF-8, and whether the value
/// is JSON of a kind a property can take.
pub fn prepare_set_property(mpv_present: bool, name: Option<&[u8]>, value: Option<&[u8]>) -> (r:
    Result<(String, PropertyInput), FfiResponse>)
    ensures
        match (r, set_property_request(mpv_present, opt_bytes(name), opt_bytes(value))) {
            (Ok(req), Ok(expected)) => req.0@ == expected.0 && input_view(req.1) == expected.1,
            (Err(resp), Err(message)) => resp@ == error_view(message),
            _ => false,
        },
{
    if !mpv_present || name.is_none() || value.is_none() {
        return Err(FfiResponse::error("Null pointer passed to set_property"));
    }
    let name_text = match utf8_text(name.unwrap()) {
        Some(t) => t,
        None => { return Err(FfiResponse::error("Invalid name string (not valid UTF-8)")) },
    };
    let value_text = match utf8_text(value.unwrap()) {
        Some(t) => t,
        None => { return Err(FfiResponse::error("Invalid value string (not valid UTF-8)")) },
    };
    let parsed = match parse_json_value(value_text) {
        Ok(v) => v,
        Err(_) => { return Err(FfiResponse::error("Failed to parse value")) },
    };
    match property_input(parsed) {
        Some(p) => Ok((name_text.to_string(), p)),
        None => Err(FfiResponse::error("Unsupported value type for property")),
    }
}

/// The reply to setting a property: `null` data on success, else the
/// error's text.
pub fn set_property_response(outcome: &Result<(), Error>) -> (r: FfiResponse)
    ensures
        r@ == match outcome {
            Ok(()) => success_view("null"@),
            Err(e) => error_view("Failed to set property: "@ + error_message(e@)),
        },
{
    match outcome {
        Ok(()) => FfiResponse::success_null(),
        Err(e) => {
            let mut m = String::from_str("Failed to set property: ");
            let t = e.message();
            m.append(t.as_str());
            FfiResponse::error(m.as_str())
        },
    }
}

/// What a request to read a property comes to: the property's name and the
/// format to read it in (`node` where the format is not known), or the
/// message it is refused with.
pub open spec fn get_property_request(
    mpv_present: bool,
    name: Option<Seq<u8>>,
    format: Option<Seq<u8>>,
) -> Result<(Seq<char>, MpvFormat), Seq<char>> {
    if !mpv_present || name is None || format is None {
        Err("Null pointer passed to get_property"@)
    } else if c_text(name) is None {
        Err("Invalid name string (not valid UTF-8)"@)
    } else if c_text(format) is None {
        Err("Invalid format string (not valid UTF-8)"@)
    } else {
        Ok(
            (
                c_text(name)->0,
                match MpvFormat::from_name_spec(c_text(format)->0) {
                    Some(f) => f,
                    None => MpvFormat::Node,
                },
            ),
        )
    }
}

/// Checks a request to read a property: whether the player, the name and
/// the format are there and UTF-8; gives the name and the format to read.
pub fn prepare_get_property(mpv_present: bool, name: Option<&[u8]>, format: Option<&[u8]>) -> (r:
    Result<(String, MpvFormat), FfiResponse>)
    ensures
        match (r, get_property_request(mpv_present, opt_bytes(name), opt_bytes(format))) {
            (Ok(req), Ok(expected)) => req.0@ == expected.0 && req.1 == expected.1,
            (Err(resp), Err(message)) => resp@ == error_view(message),
            _ => false,
        },
{
    if !mpv_present || name.is_none() || format.is_none() {
        return Err(FfiResponse::error("Null pointer passed to get_property"));
    }
    let name_text = match utf8_text(name.unwrap()) {
        Some(t) => t,
        None => { return Err(FfiResponse::error("Invalid name string (not valid UTF-8)")) },
    };
    let format_text = match utf8_text(format.unwrap()) {
        Some(t) => t,
        None => { return Err(FfiResponse::error("Invalid format string (not valid UTF-8)")) },
    };
    Ok((name_text.to_string(), MpvFormat::from_name_or_node(format_text)))
}

/// What reading a property gave: the JSON text of its value, the text of
/// the error met while writing the value as JSON, or the error of the read.
pub enum PropertyRead {
    Value(String),
    Unserializable(String),
    Failed(Error),
}

/// The reply to reading a property.
pub fn get_property_response(outcome: &PropertyRead) -> (r: FfiResponse)
    ensures
        r@ == match outcome {
            PropertyRead::Value(t) => success_view(t@),
            PropertyRead::Unserializable(m) => error_view(
                "Failed to serialize property value: "@ + m@,
            ),
            PropertyRead::Failed(e) => error_view("Failed to get property: "@ + error_message(e@)),
        },
{
    match outcome {
        PropertyRead::Value(t) => FfiResponse::success(t.clone()),
        PropertyRead::Unserializable(m) => {
            let mut s = String::from_str("Failed to serialize property value: ");
            s.append(m.as_str());
            FfiResponse::error(s.as_str())
        },
        PropertyRead::Failed(e) => {
            let mut s = String::from_str("Failed to get property: ");
            let t = e.message();
            s.append(t.as_str());
            FfiResponse::error(s.as_str())
        },
    }
}

/// Why a request to create a player was refused before the player was
/// made: one of its two texts is not UTF-8, or the initial options are not a
/// JSON object (with the parser's message).
#[derive(Clone, Debug, PartialEq, Eq)]
pub enum CreateInputError {
    InitialOptionsNotUtf8,
    ObservedPropertiesNotUtf8,
    InitialOptionsInvalid(String),
}

/// The view of a [`CreateInputError`].
pub enum CreateErrorView {
    InitialOptionsNotUtf8,
    ObservedPropertiesNotUtf8,
    InitialOptionsInvalid(Seq<char>),
}

/// The view of a [`CreateInputError`].
pub open spec fn create_error_view(e: CreateInputError) -> CreateErrorView {
    match e {
        CreateInputError::InitialOptionsNotUtf8 => CreateErrorView::InitialOptionsNotUtf8,
        CreateInputError::ObservedPropertiesNotUtf8 => CreateErrorView::ObservedPropertiesNotUtf8,
        CreateInputError::InitialOptionsInvalid(m) => CreateErrorView::InitialOptionsInvalid(m@),
    }
}

/// The JSON text an optional argument of the create request stands for: an
/// empty object where it is absent.
pub open spec fn create_text(arg: Option<Seq<u8>>) -> Option<Seq<char>> {
    match arg {
        None => Some("{}"@),
        Some(_) => c_text(arg),
    }
}

/// What a request to create a player comes to before the player is made:
/// the entries of the initial options object and the text of the observed
/// properties, or why it is refused. Both texts are checked to be UTF-8
/// before the options are read.
pub open spec fn create_request(
    initial_options: Option<Seq<u8>>,
    observed_properties: Option<Seq<u8>>,
) -> Result<(Seq<(Seq<char>, JsonView)>, Seq<char>), CreateErrorView> {
    match create_text(initial_options) {
        None => Err(CreateErrorView::InitialOptionsNotUtf8),
        Some(options) => match create_text(observed_properties) {
            None => Err(CreateErrorView::ObservedPropertiesNotUtf8),
            Some(observed) => match json_object_parse(options) {
                Err(m) => Err(CreateErrorView::InitialOptionsInvalid(m)),
                Ok(entries) => Ok((entries, observed)),
            },
        },
    }
}

/// Reads a JSON object of options into an insertion-ordered map; numbers
/// carry number texts.
pub fn read_options(text: &str) -> (r: Result<IndexMap<String, JsonValue>, String>)
    ensures
        match (r, json_object_parse(text@)) {
            (Ok(m), Ok(w)) => option_entries(m) == w,
            (Err(e), Err(m)) => e@ == m,
            _ => false,
        },
        r matches Ok(m) ==> forall|i: int|
            0 <= i < option_entries(m).len() ==> parsed_value(#[trigger] option_entries(m)[i].1),
{
    parse_json_object(text)
}

/// Reads the two JSON arguments of a request to create a player, each `{}`
/// where absent: the initial options, read as an object, and the text of
/// the observed properties. Option values read from the text carry number
/// texts for numbers.
pub fn prepare_create(initial_options: Option<&[u8]>, observed_properties: Option<&[u8]>) -> (r:
    Result<(IndexMap<String, JsonValue>, String), CreateInputError>)
    ensures
        match (r, create_request(opt_bytes(initial_options), opt_bytes(observed_properties))) {
            (Ok(got), Ok(expected)) => option_entries(got.0) == expected.0 && got.1@ == expected.1,
            (Err(e), Err(expected)) => create_error_view(e) == expected,
            _ => false,
        },
        r matches Ok(got) ==> forall|i: int|
            0 <= i < option_entries(got.0).len() ==> parsed_value(
                #[trigger] option_entries(got.0)[i].1,
            ),
{
    let options = match initial_options {
        None => String::from_str("{}"),
        Some(b) => match utf8_text(b) {
            Some(t) => t.to_string(),
            None => { return Err(CreateInputError::InitialOptionsNotUtf8) },
        },
    };
    let observed = match observed_properties {
        None => String::from_str("{}"),
        Some(b) => match utf8_text(b) {
            Some(t) => t.to_string(),
            None => { return Err(CreateInputError::ObservedPropertiesNotUtf8) },
        },
    };
    match read_options(options.as_str()) {
        Ok(map) => Ok((map, observed)),
        Err(e) => Err(CreateInputError::InitialOptionsInvalid(e)),
    }
}

/// A command request with a JSON array of arguments runs the command with
/// one argument per element, in order: a number element gives exactly its
/// JSON text (a negative number keeps its sign), a string element the
/// string, a boolean `true` or `false`.
pub proof fn law_command_arguments_follow_array(
    name: Option<Seq<u8>>,
    args: Option<Seq<u8>>,
    values: Seq<JsonView>,
)
    requires
        c_text(name) is Some,
        c_text(args) matches Some(t) && t.len() > 0 && json_array_parse(t) == Ok::<_, Seq<char>>(values),
    ensures
        command_request(true, name, args) matches Ok(req) && {
            &&& req.0 == c_text(name)->0
            &&& req.1.len() == values.len()
            &&& forall|i: int|
                0 <= i < values.len() ==> {
                    &&& (values[i] matches JsonView::Number(t) ==> #[trigger] req.1[i] == t)
                    &&& (values[i] matches JsonView::Str(x) ==> req.1[i] == x)
                    &&& (values[i] matches JsonView::Bool(b) ==> req.1[i] == (if b {
                        "true"@
                    } else {
                        "false"@
                    }))
                }
        },
{
    let req = command_request(true, name, args);
    assert(req == Ok::<_, Seq<char>>(
        (c_text(name)->0, values.map_values(|v: JsonView| command_arg_text(v))),
    ));
    let a = values.map_values(|v: JsonView| command_arg_text(v));
    assert forall|i: int| 0 <= i < values.len() implies {
        &&& (values[i] matches JsonView::Number(t) ==> #[trigger] a[i] == t)
        &&& (values[i] matches JsonView::Str(x) ==> a[i] == x)
        &&& (values[i] matches JsonView::Bool(b) ==> a[i] == (if b {
            "true"@
        } else {
            "false"@
        }))
    } by {
        law_arguments_passed_verbatim(values[i]);
    }
}

/// Every JSON boolean, number and string can be set as a property, and is
/// set as what it is: a request whose value parses as one of them is
/// accepted with that very value, `false` as much as `true`.
pub proof fn law_scalar_values_are_settable(
    name: Option<Seq<u8>>,
    value: Option<Seq<u8>>,
    v: JsonView,
)
    requires
        c_text(name) is Some,
        c_text(value) matches Some(t) && json_value_parse(t) == Ok::<_, Seq<char>>(v),
        v is Bool || v is Number || v is Str,
    ensures
        set_property_request(true, name, value) == Ok::<_, Seq<char>>((c_text(name)->0, v)),
        forall|b: bool| #![auto] settable(JsonView::Bool(b)),
{
}

/// The value a property is set to is the JSON value it came from: a
/// boolean is set as a flag of the same truth.
pub proof fn law_boolean_sets_flag(p: PropertyInput, b: bool)
    ensures
        input_view(p) == JsonView::Bool(b) ==> p == PropertyInput::Flag(b),
{
}

} // verus!
