use mpv_wrapper::error::{nul_error, Error};
use mpv_wrapper::library::{libmpv_file_name, load_failure, TargetOs};
use mpv_wrapper::utils::{
    command_status, cstr_to_string, error_string, initialize_status, observe_status,
    option_status, property_status, ErrorLookup,
};

#[test]
fn error_string_from_library_text() {
    assert_eq!(error_string(-5, ErrorLookup::Text(b"invalid parameter".to_vec())), "invalid parameter");
    assert_eq!(error_string(-5, ErrorLookup::Text(vec![0x61, 0xfe])), "a\u{FFFD}");
}

#[test]
fn error_string_without_text() {
    assert_eq!(error_string(-1, ErrorLookup::Missing), "Unknown error");
}

#[test]
fn error_string_without_library() {
    assert_eq!(
        error_string(-13, ErrorLookup::NotLoaded),
        "Mpv error code -13 (Library not loaded)"
    );
    assert_eq!(error_string(0, ErrorLookup::NotLoaded), "Mpv error code 0 (Library not loaded)");
}

#[test]
fn cstr_to_string_of_null_and_bytes() {
    assert_eq!(cstr_to_string(None), "");
    assert_eq!(cstr_to_string(Some(b"hello")), "hello");
    assert_eq!(cstr_to_string(Some(b"abc")), "abc");
    assert_eq!(cstr_to_string(Some(&[0x61, 0xff, 0x62])), "a\u{FFFD}b");
    assert_eq!(cstr_to_string(Some(&[0x68, 0x80])), "h\u{FFFD}");
}

#[test]
fn statuses_map_negative_codes_to_errors() {
    assert_eq!(option_status("vo", 0, ErrorLookup::Missing), Ok(()));
    assert_eq!(option_status("vo", 3, ErrorLookup::Missing), Ok(()));
    assert_eq!(
        option_status("vo", -7, ErrorLookup::Missing),
        Err(Error::SetOption { name: "vo".to_string(), message: "Unknown error".to_string() })
    );
    assert_eq!(
        observe_status("pause", -2, ErrorLookup::Text(b"bad".to_vec())),
        Err(Error::PropertyObserve { name: "pause".to_string(), message: "bad".to_string() })
    );
    assert_eq!(observe_status("pause", 0, ErrorLookup::Missing), Ok(()));
    assert_eq!(
        initialize_status(-1, ErrorLookup::NotLoaded),
        Err(Error::Initialize("Mpv error code -1 (Library not loaded)".to_string()))
    );
    assert_eq!(initialize_status(0, ErrorLookup::NotLoaded), Ok(()));
    assert_eq!(
        command_status("set", -4, ErrorLookup::Text(b"property not found".to_vec())),
        Err(Error::Command { name: "set".to_string(), message: "property not found".to_string() })
    );
    assert_eq!(command_status("set", 0, ErrorLookup::Missing), Ok(()));
}

#[test]
fn nul_error_names_position() {
    assert_eq!(
        nul_error(3),
        Error::InvalidParameter("nul byte found in provided data at position: 3".to_string())
    );
}

#[test]
fn error_messages() {
    assert_eq!(Error::Libmpv("x".to_string()).message(), "x");
    assert_eq!(Error::Create.message(), "failed to create the mpv handle");
    assert_eq!(Error::ClientCreation.message(), "failed to create the mpv event client");
    assert_eq!(
        Error::SetOption { name: "vo".to_string(), message: "m".to_string() }.message(),
        "failed to set option 'vo': m"
    );
    assert_eq!(
        Error::PropertyObserve { name: "p".to_string(), message: "m".to_string() }.message(),
        "failed to observe property 'p': m"
    );
    assert_eq!(Error::Initialize("m".to_string()).message(), "failed to initialize mpv: m");
    assert_eq!(
        Error::Command { name: "set".to_string(), message: "m".to_string() }.message(),
        "command 'set' failed: m"
    );
    assert_eq!(Error::InvalidParameter("m".to_string()).message(), "invalid parameter: m");
}

#[test]
fn library_names_and_load_failure() {
    assert_eq!(libmpv_file_name(TargetOs::Windows), "libmpv-2.dll");
    assert_eq!(libmpv_file_name(TargetOs::MacOs), "libmpv.dylib");
    assert_eq!(libmpv_file_name(TargetOs::Linux), "libmpv.so.2");
    assert_eq!(
        load_failure("DlOpen { desc: \"x\" }"),
        Error::Libmpv("libmpv library load failed: DlOpen { desc: \"x\" }".to_string())
    );
}

#[test]
fn property_status_and_message() {
    assert_eq!(property_status("pause", 0, ErrorLookup::Missing), Ok(()));
    let e = property_status("pause", -8, ErrorLookup::Text(b"property unavailable".to_vec()));
    assert_eq!(
        e,
        Err(Error::Property { name: "pause".to_string(), message: "property unavailable".to_string() })
    );
    assert_eq!(e.unwrap_err().message(), "property 'pause' failed: property unavailable");
}

