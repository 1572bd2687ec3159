use indexmap::IndexMap;
use mpv_wrapper::command::{check_command_strings, command_arg, command_args};
use mpv_wrapper::error::Error;
use mpv_wrapper::format::MpvFormat;
use mpv_wrapper::json::JsonValue;
use mpv_wrapper::observe::plan_observations;
use mpv_wrapper::options::{option_value_text, plan_options};

fn s(t: &str) -> String {
    t.to_string()
}

#[test]
fn option_values_become_text() {
    assert_eq!(option_value_text(&JsonValue::Bool(true)), Some(s("yes")));
    assert_eq!(option_value_text(&JsonValue::Bool(false)), Some(s("no")));
    assert_eq!(option_value_text(&JsonValue::Number(s("1.5"))), Some(s("1.5")));
    assert_eq!(option_value_text(&JsonValue::Str(s("null"))), Some(s("null")));
    assert_eq!(option_value_text(&JsonValue::Null), None);
    assert_eq!(option_value_text(&JsonValue::Array(s("[1]"))), None);
    assert_eq!(option_value_text(&JsonValue::Object(s("{}"))), None);
}

#[test]
fn plan_options_for_initial_options() {
    let mut m = IndexMap::new();
    m.insert(s("idle"), JsonValue::Str(s("yes")));
    m.insert(s("vo"), JsonValue::Str(s("null")));
    let plan = plan_options(&m);
    assert_eq!(plan.settings, vec![(s("idle"), s("yes")), (s("vo"), s("null"))]);
    assert_eq!(plan.failure, None);
}

#[test]
fn plan_options_skips_and_converts() {
    let mut m = IndexMap::new();
    m.insert(s("fullscreen"), JsonValue::Bool(true));
    m.insert(s("list"), JsonValue::Array(s("[1,2]")));
    m.insert(s(""), JsonValue::Str(s("ignored")));
    m.insert(s("volume"), JsonValue::Number(s("50")));
    m.insert(s("mute"), JsonValue::Bool(false));
    m.insert(s("nothing"), JsonValue::Null);
    let plan = plan_options(&m);
    assert_eq!(
        plan.settings,
        vec![(s("fullscreen"), s("yes")), (s("volume"), s("50")), (s("mute"), s("no"))]
    );
    assert_eq!(plan.failure, None);
}

#[test]
fn plan_options_stops_at_zero_byte() {
    let mut m = IndexMap::new();
    m.insert(s("idle"), JsonValue::Str(s("yes")));
    m.insert(s("v\0o"), JsonValue::Str(s("null")));
    m.insert(s("volume"), JsonValue::Number(s("50")));
    let plan = plan_options(&m);
    assert_eq!(plan.settings, vec![(s("idle"), s("yes"))]);
    assert_eq!(
        plan.failure,
        Some(Error::InvalidParameter(s("nul byte found in provided data at position: 1")))
    );

    let mut m = IndexMap::new();
    m.insert(s("title"), JsonValue::Str(s("ab\0")));
    let plan = plan_options(&m);
    assert!(plan.settings.is_empty());
    assert_eq!(
        plan.failure,
        Some(Error::InvalidParameter(s("nul byte found in provided data at position: 2")))
    );
}

#[test]
fn plan_options_of_empty_map() {
    let m: IndexMap<String, JsonValue> = IndexMap::new();
    let plan = plan_options(&m);
    assert!(plan.settings.is_empty());
    assert_eq!(plan.failure, None);
}

#[test]
fn plan_observations_numbers_from_one() {
    let mut m = IndexMap::new();
    m.insert(s("pause"), MpvFormat::Flag);
    m.insert(s("volume"), MpvFormat::Double);
    m.insert(s("time-pos"), MpvFormat::Double);
    let plan = plan_observations(&m);
    assert_eq!(
        plan.observations,
        vec![
            (1, s("pause"), MpvFormat::Flag),
            (2, s("volume"), MpvFormat::Double),
            (3, s("time-pos"), MpvFormat::Double),
        ]
    );
    assert_eq!(plan.failure, None);
    for (k, o) in plan.observations.iter().enumerate() {
        assert_eq!(o.0, (k as u64) + 1);
    }
}

#[test]
fn plan_observations_stops_at_zero_byte() {
    let mut m = IndexMap::new();
    m.insert(s("pause"), MpvFormat::Flag);
    m.insert(s("\0x"), MpvFormat::Node);
    m.insert(s("volume"), MpvFormat::Double);
    let plan = plan_observations(&m);
    assert_eq!(plan.observations, vec![(1, s("pause"), MpvFormat::Flag)]);
    assert_eq!(
        plan.failure,
        Some(Error::InvalidParameter(s("nul byte found in provided data at position: 0")))
    );
}

#[test]
fn command_arguments_from_json() {
    assert_eq!(command_arg(&JsonValue::Bool(true)), "true");
    assert_eq!(command_arg(&JsonValue::Bool(false)), "false");
    assert_eq!(command_arg(&JsonValue::Number(s("50"))), "50");
    assert_eq!(command_arg(&JsonValue::Str(s("\"quoted\""))), "\"quoted\"");
    assert_eq!(command_arg(&JsonValue::Null), "null");
    assert_eq!(command_arg(&JsonValue::Array(s("[\"a\"]"))), "[\"a\"]");
    assert_eq!(command_arg(&JsonValue::Object(s("{\"k\":1}"))), "{\"k\":1}");
    let args = command_args(&vec![JsonValue::Str(s("volume")), JsonValue::Number(s("50"))]);
    assert_eq!(args, vec![s("volume"), s("50")]);
}

#[test]
fn command_strings_must_be_c_strings() {
    assert_eq!(check_command_strings("set", &["volume", "50"]), Ok(()));
    assert_eq!(check_command_strings("stop", &[]), Ok(()));
    assert_eq!(
        check_command_strings("se\0t", &["volume"]),
        Err(Error::InvalidParameter(s("nul byte found in provided data at position: 2")))
    );
    assert_eq!(
        check_command_strings("set", &["volume", "5\00", "\0"]),
        Err(Error::InvalidParameter(s("nul byte found in provided data at position: 1")))
    );
}
