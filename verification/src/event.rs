//! What the event thread does with each event code mpv reports.
use vstd::prelude::*;

verus! {

/// The kinds of event the wrapper reports.
#[derive(Clone, Copy, Debug, PartialEq, Eq, Structural)]
pub enum EventKind {
    Shutdown,
    StartFile,
    EndFile,
    FileLoaded,
    VideoReconfig,
    AudioReconfig,
    Seek,
    PlaybackRestart,
    PropertyChange,
    Other(i32),
}

/// The kind of an `mpv_event_id` code.
pub open spec fn kind_of(code: i32) -> EventKind {
    if code == 1 {
        EventKind::Shutdown
    } else if code == 6 {
        EventKind::StartFile
    } else if code == 7 {
        EventKind::EndFile
    } else if code == 8 {
        EventKind::FileLoaded
    } else if code == 17 {
        EventKind::VideoReconfig
    } else if code == 18 {
        EventKind::AudioReconfig
    } else if code == 20 {
        EventKind::Seek
    } else if code == 21 {
        EventKind::PlaybackRestart
    } else if code == 22 {
        EventKind::PropertyChange
    } else {
        EventKind::Other(code)
    }
}

/// What the event thread does with an event: nothing for the empty event
/// (code 0, a wait that timed out), else hand it on, and stop waiting after
/// the shutdown event.
#[derive(Clone, Copy, Debug, PartialEq, Eq, Structural)]
pub enum EventStep {
    Skip,
    Deliver { kind: EventKind, stop: bool },
}

/// What the event thread does with an event code.
pub open spec fn step_of(code: i32) -> EventStep {
    if code == 0 {
        EventStep::Skip
    } else {
        EventStep::Deliver { kind: kind_of(code), stop: code == 1 }
    }
}

/// What the event thread does with an event code.
pub fn event_step(code: i32) -> (r: EventStep)
    ensures
        r == step_of(code),
{
    if code == 0 {
        return EventStep::Skip;
    }
    let kind = if code == 1 {
        EventKind::Shutdown
    } else if code == 6 {
        EventKind::StartFile
    } else if code == 7 {
        EventKind::EndFile
    } else if code == 8 {
        EventKind::FileLoaded
    } else if code == 17 {
        EventKind::VideoReconfig
    } else if code == 18 {
        EventKind::AudioReconfig
    } else if code == 20 {
        EventKind::Seek
    } else if code == 21 {
        EventKind::PlaybackRestart
    } else if code == 22 {
        EventKind::PropertyChange
    } else {
        EventKind::Other(code)
    };
    EventStep::Deliver { kind, stop: code == 1 }
}

/// The event thread stops exactly at the shutdown event, which it always
/// hands on first.
pub proof fn law_stops_only_at_shutdown(code: i32)
    ensures
        (step_of(code) matches EventStep::Deliver { kind, stop } && stop) <==> code == 1,
        step_of(code) matches EventStep::Deliver { kind, stop } ==> (stop <==> kind
            == EventKind::Shutdown),
{
}

} // verus!
