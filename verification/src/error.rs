//! The library's error type and the messages it carries.
use vstd::prelude::*;
use crate::text::{decimal, uint_text};

verus! {

/// Everything that can go wrong while driving mpv.
#[derive(Clone, Debug, PartialEq, Eq)]
pub enum Error {
    /// The mpv library could not be loaded.
    Libmpv(String),
    /// `mpv_create` returned no handle.
    Create,
    /// The client handle for events could not be created.
    ClientCreation,
    /// Setting an option before initialisation failed.
    SetOption { name: String, message: String },
    /// Observing a property failed.
    PropertyObserve { name: String, message: String },
    /// `mpv_initialize` failed.
    Initialize(String),
    /// A command was refused.
    Command { name: String, message: String },
    /// Reading or writing a property failed.
    Property { name: String, message: String },
    /// A string could not be handed to C (it holds a zero byte).
    InvalidParameter(String),
}

/// The mathematical view of an [`Error`].
pub enum ErrorView {
    Libmpv(Seq<char>),
    Create,
    ClientCreation,
    SetOption { name: Seq<char>, message: Seq<char> },
    PropertyObserve { name: Seq<char>, message: Seq<char> },
    Initialize(Seq<char>),
    Command { name: Seq<char>, message: Seq<char> },
    Property { name: Seq<char>, message: Seq<char> },
    InvalidParameter(Seq<char>),
}

impl View for Error {
    type V = ErrorView;

    open spec fn view(&self) -> ErrorView {
        match self {
            Error::Libmpv(m) => ErrorView::Libmpv(m@),
            Error::Create => ErrorView::Create,
            Error::ClientCreation => ErrorView::ClientCreation,
            Error::SetOption { name, message } => ErrorView::SetOption { name: name@, message: message@ },
            Error::PropertyObserve { name, message } => ErrorView::PropertyObserve {
                name: name@,
                message: message@,
            },
            Error::Initialize(m) => ErrorView::Initialize(m@),
            Error::Command { name, message } => ErrorView::Command { name: name@, message: message@ },
            Error::Property { name, message } => ErrorView::Property { name: name@, message: message@ },
            Error::InvalidParameter(m) => ErrorView::InvalidParameter(m@),
        }
    }
}

/// The message of the error for a string with a zero byte at byte `pos`.
pub open spec fn nul_message(pos: int) -> Seq<char> {
    "nul byte found in provided data at position: "@ + decimal(pos)
}

/// The error for a string that holds a zero byte at byte position `pos`.
pub fn nul_error(pos: usize) -> (e: Error)
    ensures
        e@ == ErrorView::InvalidParameter(nul_message(pos as int)),
{
    let mut m = String::from_str("nul byte found in provided data at position: ");
    let digits = uint_text(pos as u64);
    m.append(digits.as_str());
    Error::InvalidParameter(m)
}

/// The text an [`Error`] is shown with.
pub open spec fn error_message(e: ErrorView) -> Seq<char> {
    match e {
        ErrorView::Libmpv(m) => m,
        ErrorView::Create => "failed to create the mpv handle"@,
        ErrorView::ClientCreation => "failed to create the mpv event client"@,
        ErrorView::SetOption { name, message } => "failed to set option '"@ + name + "': "@ + message,
        ErrorView::PropertyObserve { name, message } => "failed to observe property '"@ + name
            + "': "@ + message,
        ErrorView::Initialize(m) => "failed to initialize mpv: "@ + m,
        ErrorView::Command { name, message } => "command '"@ + name + "' failed: "@ + message,
        ErrorView::Property { name, message } => "property '"@ + name + "' failed: "@ + message,
        ErrorView::InvalidParameter(m) => "invalid parameter: "@ + m,
    }
}

impl Error {
    /// The text this error is shown with.
    pub fn message(&self) -> (r: String)
        ensures
            r@ == error_message(self@),
    {
        match self {
            Error::Libmpv(m) => m.clone(),
            Error::Create => String::from_str("failed to create the mpv handle"),
            Error::ClientCreation => String::from_str("failed to create the mpv event client"),
            Error::SetOption { name, message } => {
                let mut r = String::from_str("failed to set option '");
                r.append(name.as_str());
                r.append("': ");
                r.append(message.as_str());
                r
            },
            Error::PropertyObserve { name, message } => {
                let mut r = String::from_str("failed to observe property '");
                r.append(name.as_str());
                r.append("': ");
                r.append(message.as_str());
                r
            },
            Error::Initialize(m) => {
                let mut r = String::from_str("failed to initialize mpv: ");
                r.append(m.as_str());
                r
            },
            Error::Command { name, message } => {
                let mut r = String::from_str("command '");
                r.append(name.as_str());
                r.append("' failed: ");
                r.append(message.as_str());
                r
            },
            Error::Property { name, message } => {
                let mut r = String::from_str("property '");
                r.append(name.as_str());
                r.append("' failed: ");
                r.append(message.as_str());
                r
            },
            Error::InvalidParameter(m) => {
                let mut r = String::from_str("invalid parameter: ");
                r.append(m.as_str());
                r
            },
        }
    }
}

} // verus!
