//! Verified core of a small C-callable wrapper around libmpv: the text
//! handling, JSON framing, option and property planning and status mapping
//! that surround the calls into the mpv player library.
use vstd::prelude::*;

pub mod artifact;
pub mod command;
pub mod error;
pub mod event;
pub mod format;
pub mod json;
pub mod library;
pub mod maps;
pub mod observe;
pub mod options;
pub mod request;
pub mod response;
pub mod text;
pub mod utils;

verus! {

} // verus!
