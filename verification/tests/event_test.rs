use mpv_wrapper::event::{event_step, EventKind, EventStep};
use mpv_wrapper::format::MpvFormat;

#[test]
fn event_codes() {
    assert_eq!(event_step(0), EventStep::Skip);
    assert_eq!(event_step(1), EventStep::Deliver { kind: EventKind::Shutdown, stop: true });
    assert_eq!(event_step(22), EventStep::Deliver { kind: EventKind::PropertyChange, stop: false });
    assert_eq!(event_step(6), EventStep::Deliver { kind: EventKind::StartFile, stop: false });
    assert_eq!(event_step(7), EventStep::Deliver { kind: EventKind::EndFile, stop: false });
    assert_eq!(event_step(8), EventStep::Deliver { kind: EventKind::FileLoaded, stop: false });
    assert_eq!(event_step(17), EventStep::Deliver { kind: EventKind::VideoReconfig, stop: false });
    assert_eq!(event_step(18), EventStep::Deliver { kind: EventKind::AudioReconfig, stop: false });
    assert_eq!(event_step(20), EventStep::Deliver { kind: EventKind::Seek, stop: false });
    assert_eq!(event_step(21), EventStep::Deliver { kind: EventKind::PlaybackRestart, stop: false });
    assert_eq!(event_step(3), EventStep::Deliver { kind: EventKind::Other(3), stop: false });
    assert_eq!(event_step(-1), EventStep::Deliver { kind: EventKind::Other(-1), stop: false });
}

#[test]
fn only_shutdown_stops() {
    for code in -5..40 {
        let stops = matches!(event_step(code), EventStep::Deliver { stop: true, .. });
        assert_eq!(stops, code == 1);
    }
}

#[test]
fn formats_read_as() {
    assert_eq!(MpvFormat::Flag.read_as(), MpvFormat::Flag);
    assert_eq!(MpvFormat::OsdString.read_as(), MpvFormat::OsdString);
    assert_eq!(MpvFormat::NodeMap.read_as(), MpvFormat::Node);
    assert_eq!(MpvFormat::NoFormat.read_as(), MpvFormat::Node);
    assert_eq!(MpvFormat::ByteArray.read_as(), MpvFormat::Node);
}
