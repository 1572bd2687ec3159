use mpv_wrapper::error::Error;
use mpv_wrapper::format::MpvFormat;
use mpv_wrapper::options::plan_options;
use mpv_wrapper::json::JsonValue;
use mpv_wrapper::request::{
    command_response, get_property_response, prepare_command, prepare_create, read_options,
    prepare_get_property, prepare_set_property, property_input, set_property_response,
    CreateInputError, PropertyInput, PropertyRead,
};
use mpv_wrapper::response::FfiResponse;
use mpv_wrapper::utils::cstr_to_string;

fn s(t: &str) -> String {
    t.to_string()
}

fn error_json(r: Result<impl Sized, FfiResponse>) -> String {
    match r {
        Ok(_) => panic!("expected a refusal"),
        Err(resp) => resp.into_json_text(),
    }
}

#[test]
fn values_are_parsed_as_json() {
    let value = |text: &[u8]| prepare_set_property(true, Some(b"p"), Some(text)).ok().unwrap().1;
    assert_eq!(value(b"true"), PropertyInput::Flag(true));
    assert_eq!(value(b" 1.5 "), PropertyInput::Double(s("1.5")));
    assert_eq!(value(b"-3"), PropertyInput::Double(s("-3")));
    assert_eq!(value(b"1e2"), PropertyInput::Double(s("100.0")));
    assert_eq!(value(b"\"a\\\"b\""), PropertyInput::Text(s("a\"b")));
}

#[test]
fn arrays_are_parsed_as_json() {
    let args = |text: &[u8]| prepare_command(true, Some(b"c"), Some(text)).ok().unwrap().args;
    assert_eq!(args(b"[\"volume\", \"50\"]"), vec![s("volume"), s("50")]);
    assert_eq!(
        args(b"[true, 2, null, [3, \"x\"], {\"k\": 1}]"),
        vec![s("true"), s("2"), s("null"), s("[3,\"x\"]"), s("{\"k\":1}")]
    );
    assert_eq!(args(b"[\"\\\"q\\\"\"]"), vec![s("\"q\"")]);
}

#[test]
fn messages_are_quoted_as_json() {
    assert_eq!(FfiResponse::error("plain").into_json_text(), "{\"error\":\"plain\"}");
    assert_eq!(
        FfiResponse::error("a\"b\\c").into_json_text(),
        "{\"error\":\"a\\\"b\\\\c\"}"
    );
    assert_eq!(
        FfiResponse::error("line\nbreak").into_json_text(),
        "{\"error\":\"line\\nbreak\"}"
    );
}

#[test]
fn utf8_checks_and_lenient_decoding() {
    assert!(prepare_command(true, Some("é".as_bytes()), None).is_ok());
    assert!(prepare_command(true, Some(&[0xed, 0xa0, 0x80]), None).is_err());
    assert!(prepare_command(true, Some(&[0xc0, 0x80]), None).is_err());
    assert_eq!(cstr_to_string(Some(&[0x66, 0xff, 0x67])), "f\u{FFFD}g");
}

#[test]
fn responses_as_json() {
    assert_eq!(FfiResponse::success_null().into_json_text(), "{\"data\":null}");
    assert_eq!(FfiResponse::success(s("true")).into_json_text(), "{\"data\":true}");
    assert_eq!(FfiResponse::error("bad \"x\"").into_json_text(), "{\"error\":\"bad \\\"x\\\"\"}");
    let both = FfiResponse { data: Some(s("1")), error: Some(s("e")) };
    assert_eq!(both.to_json(), "{\"data\":1,\"error\":\"e\"}");
    let none = FfiResponse { data: None, error: None };
    assert_eq!(none.to_json(), "{}");
}

#[test]
fn responses_with_zero_byte_fall_back() {
    let r = FfiResponse::success(s("\"a\0\""));
    assert_eq!(
        r.into_json_text(),
        "{\"error\":\"FFI: Invalid CString, potential null byte in response\"}"
    );
    // An error message with a zero byte is escaped, so it crosses as is.
    let r = FfiResponse::error("a\0");
    assert_eq!(r.into_json_text(), "{\"error\":\"a\\u0000\"}");
}

#[test]
fn command_request_set_volume() {
    let req = match prepare_command(true, Some(b"set"), Some(b"[\"volume\", \"50\"]")) {
        Ok(r) => r,
        Err(_) => panic!("refused"),
    };
    assert_eq!(req.name, "set");
    assert_eq!(req.args, vec![s("volume"), s("50")]);
    assert_eq!(command_response(&Ok(())).into_json_text(), "{\"data\":null}");
}

#[test]
fn command_request_without_arguments() {
    let req = prepare_command(true, Some(b"stop"), None).ok().unwrap();
    assert_eq!(req.name, "stop");
    assert!(req.args.is_empty());
    let req = prepare_command(true, Some(b"stop"), Some(b"")).ok().unwrap();
    assert!(req.args.is_empty());
    let req = prepare_command(true, Some(b"cmd"), Some(b"[true, 1.5, null]")).ok().unwrap();
    assert_eq!(req.args, vec![s("true"), s("1.5"), s("null")]);
}

#[test]
fn command_request_refusals() {
    assert_eq!(
        error_json(prepare_command(false, Some(b"set"), None)),
        "{\"error\":\"Null pointer passed for mpv or name\"}"
    );
    assert_eq!(
        error_json(prepare_command(true, None, None)),
        "{\"error\":\"Null pointer passed for mpv or name\"}"
    );
    assert_eq!(
        error_json(prepare_command(true, Some(&[0xff]), None)),
        "{\"error\":\"Invalid name string (not valid UTF-8)\"}"
    );
    assert_eq!(
        error_json(prepare_command(true, Some(b"set"), Some(&[0xc0]))),
        "{\"error\":\"Invalid args_json string (not valid UTF-8)\"}"
    );
    let text = error_json(prepare_command(true, Some(b"set"), Some(b"{\"a\":1}")));
    assert!(text.starts_with("{\"error\":\"Failed to parse args_json (expected array): "));
}

#[test]
fn command_failure_reply() {
    let e = Error::Command { name: s("set"), message: s("property not found") };
    assert_eq!(
        command_response(&Err(e)).into_json_text(),
        "{\"error\":\"mpv command failed: command 'set' failed: property not found\"}"
    );
}

#[test]
fn property_inputs() {
    assert_eq!(property_input(JsonValue::Bool(true)), Some(PropertyInput::Flag(true)));
    assert_eq!(property_input(JsonValue::Number(s("2"))), Some(PropertyInput::Double(s("2"))));
    assert_eq!(property_input(JsonValue::Str(s("x"))), Some(PropertyInput::Text(s("x"))));
    assert_eq!(property_input(JsonValue::Null), None);
    assert_eq!(property_input(JsonValue::Array(s("[]"))), None);
}

#[test]
fn set_property_request_pause() {
    let (name, value) = prepare_set_property(true, Some(b"pause"), Some(b"true")).ok().unwrap();
    assert_eq!(name, "pause");
    assert_eq!(value, PropertyInput::Flag(true));
    let (_, value) = prepare_set_property(true, Some(b"volume"), Some(b"50")).ok().unwrap();
    assert_eq!(value, PropertyInput::Double(s("50")));
    let (_, value) = prepare_set_property(true, Some(b"title"), Some(b"\"x\"")).ok().unwrap();
    assert_eq!(value, PropertyInput::Text(s("x")));
    assert_eq!(set_property_response(&Ok(())).into_json_text(), "{\"data\":null}");
}

#[test]
fn set_property_refusals() {
    assert_eq!(
        error_json(prepare_set_property(true, Some(b"pause"), None)),
        "{\"error\":\"Null pointer passed to set_property\"}"
    );
    assert_eq!(
        error_json(prepare_set_property(false, Some(b"pause"), Some(b"true"))),
        "{\"error\":\"Null pointer passed to set_property\"}"
    );
    assert_eq!(
        error_json(prepare_set_property(true, Some(&[0x80]), Some(b"true"))),
        "{\"error\":\"Invalid name string (not valid UTF-8)\"}"
    );
    assert_eq!(
        error_json(prepare_set_property(true, Some(b"pause"), Some(&[0x80]))),
        "{\"error\":\"Invalid value string (not valid UTF-8)\"}"
    );
    assert_eq!(
        error_json(prepare_set_property(true, Some(b"pause"), Some(b"yes"))),
        "{\"error\":\"Failed to parse value\"}"
    );
    assert_eq!(
        error_json(prepare_set_property(true, Some(b"pause"), Some(b"[1]"))),
        "{\"error\":\"Unsupported value type for property\"}"
    );
    assert_eq!(
        error_json(prepare_set_property(true, Some(b"pause"), Some(b"null"))),
        "{\"error\":\"Unsupported value type for property\"}"
    );
    let e = Error::InvalidParameter(s("m"));
    assert_eq!(
        set_property_response(&Err(e)).into_json_text(),
        "{\"error\":\"Failed to set property: invalid parameter: m\"}"
    );
}

#[test]
fn get_property_request_pause() {
    let (name, format) = prepare_get_property(true, Some(b"pause"), Some(b"flag")).ok().unwrap();
    assert_eq!(name, "pause");
    assert_eq!(format, MpvFormat::Flag);
    let (_, format) = prepare_get_property(true, Some(b"pause"), Some(b"whatever")).ok().unwrap();
    assert_eq!(format, MpvFormat::Node);
    assert_eq!(
        get_property_response(&PropertyRead::Value(s("true"))).into_json_text(),
        "{\"data\":true}"
    );
}

#[test]
fn get_property_refusals() {
    assert_eq!(
        error_json(prepare_get_property(true, Some(b"pause"), None)),
        "{\"error\":\"Null pointer passed to get_property\"}"
    );
    assert_eq!(
        error_json(prepare_get_property(true, Some(&[0xfe]), Some(b"flag"))),
        "{\"error\":\"Invalid name string (not valid UTF-8)\"}"
    );
    assert_eq!(
        error_json(prepare_get_property(true, Some(b"pause"), Some(&[0xfe]))),
        "{\"error\":\"Invalid format string (not valid UTF-8)\"}"
    );
    assert_eq!(
        get_property_response(&PropertyRead::Unserializable(s("bad"))).into_json_text(),
        "{\"error\":\"Failed to serialize property value: bad\"}"
    );
    assert_eq!(
        get_property_response(&PropertyRead::Failed(Error::Create)).into_json_text(),
        "{\"error\":\"Failed to get property: failed to create the mpv handle\"}"
    );
}

#[test]
fn create_request_arguments() {
    let options: &[u8] = b"{\"idle\": \"yes\", \"vo\": \"null\"}";
    let observed: &[u8] = b"{\"pause\": \"flag\", \"volume\": \"double\", \"time-pos\": \"double\"}";
    let (map, observed_text) = prepare_create(Some(options), Some(observed)).unwrap();
    assert_eq!(observed_text, "{\"pause\": \"flag\", \"volume\": \"double\", \"time-pos\": \"double\"}");
    let plan = plan_options(&map);
    assert_eq!(plan.settings, vec![(s("idle"), s("yes")), (s("vo"), s("null"))]);
    let (map, observed_text) = prepare_create(None, None).unwrap();
    assert!(map.is_empty());
    assert_eq!(observed_text, "{}");
    assert_eq!(
        prepare_create(Some(&[0xff]), Some(&[0xff])),
        Err(CreateInputError::InitialOptionsNotUtf8)
    );
    assert_eq!(
        prepare_create(None, Some(&[0xff])),
        Err(CreateInputError::ObservedPropertiesNotUtf8)
    );
    assert!(matches!(
        prepare_create(Some(b"[1]"), None),
        Err(CreateInputError::InitialOptionsInvalid(_))
    ));
}

#[test]
fn create_request_keeps_observed_text_whole() {
    // A repeated name is left in the text for the format reader, which sees
    // every value, the earlier ones too.
    let text: &[u8] = b"{\"a\":\"bogus\",\"a\":\"flag\"}";
    let (_, observed_text) = prepare_create(None, Some(text)).unwrap();
    assert_eq!(observed_text, "{\"a\":\"bogus\",\"a\":\"flag\"}");
    // The options are read before the observed properties.
    assert!(matches!(
        prepare_create(Some(b"{"), Some(b"not json")),
        Err(CreateInputError::InitialOptionsInvalid(_))
    ));
}

#[test]
fn read_options_of_json_text() {
    let m = read_options("{\"idle\":\"yes\",\"volume\":50,\"speed\":1.5,\"list\":[1,2]}").unwrap();
    let got: Vec<(String, JsonValue)> = m.into_iter().collect();
    assert_eq!(
        got,
        vec![
            (s("idle"), JsonValue::Str(s("yes"))),
            (s("volume"), JsonValue::Number(s("50"))),
            (s("speed"), JsonValue::Number(s("1.5"))),
            (s("list"), JsonValue::Array(s("[1,2]"))),
        ]
    );
    assert!(read_options("[1]").is_err());
}

#[test]
fn empty_array_arguments_are_no_arguments() {
    for args in [None, Some(&b""[..]), Some(&b"[]"[..])] {
        let req = prepare_command(true, Some(b"stop"), args).ok().unwrap();
        assert_eq!(req.name, "stop");
        assert!(req.args.is_empty());
    }
}

#[test]
fn parsed_numbers_are_number_texts() {
    let (m, _) = prepare_create(Some(b"{\"a\": 1.25e-7, \"b\": -12, \"c\": 1e300, \"d\": 0.5}"), None).unwrap();
    for v in m.values() {
        match v {
            JsonValue::Number(t) => {
                assert!(!t.is_empty());
                assert!(t.chars().all(|c| c.is_ascii_digit() || "+-.eE".contains(c)));
            }
            _ => panic!("expected a number"),
        }
    }
}

#[test]
fn exact_error_replies() {
    assert_eq!(FfiResponse::error("x").into_json_text(), "{\"error\":\"x\"}");
    assert_eq!(
        FfiResponse::error("\u{1}\u{8}\u{c}\r\t\u{1f}é").into_json_text(),
        "{\"error\":\"\\u0001\\b\\f\\r\\t\\u001fé\"}"
    );
}

#[test]
fn option_objects_keep_order() {
    let (m, _) = prepare_create(Some(b"{\"idle\": \"yes\", \"vo\": \"null\", \"volume\": 30}"), None).unwrap();
    let keys: Vec<&String> = m.keys().collect();
    assert_eq!(keys, vec!["idle", "vo", "volume"]);
    assert_eq!(m["volume"], JsonValue::Number(s("30")));
    let plan = plan_options(&m);
    assert_eq!(
        plan.settings,
        vec![(s("idle"), s("yes")), (s("vo"), s("null")), (s("volume"), s("30"))]
    );
    let (m, _) = prepare_create(Some(b"{\"a\": 1, \"a\": 2}"), None).unwrap();
    assert_eq!(m.len(), 1);
    assert!(matches!(prepare_create(Some(b"{"), None), Err(CreateInputError::InitialOptionsInvalid(m)) if !m.is_empty()));
}
