//! Which mpv library file is loaded, and the error when loading fails.
use vstd::prelude::*;
use crate::error::{Error, ErrorView};

verus! {

/// The operating systems the wrapper is built for.
#[derive(Clone, Copy, Debug, PartialEq, Eq, Structural)]
pub enum TargetOs {
    Windows,
    MacOs,
    Linux,
}

/// The file name of the mpv library on an operating system.
pub open spec fn libmpv_file(os: TargetOs) -> Seq<char> {
    match os {
        TargetOs::Windows => "libmpv-2.dll"@,
        TargetOs::MacOs => "libmpv.dylib"@,
        TargetOs::Linux => "libmpv.so.2"@,
    }
}

/// The file name of the mpv library on an operating system.
pub fn libmpv_file_name(os: TargetOs) -> (r: &'static str)
    ensures
        r@ == libmpv_file(os),
{
    match os {
        TargetOs::Windows => "libmpv-2.dll",
        TargetOs::MacOs => "libmpv.dylib",
        TargetOs::Linux => "libmpv.so.2",
    }
}

/// The error reported when the mpv library could not be loaded, given the
/// loader's description of why.
pub fn load_failure(detail: &str) -> (e: Error)
    ensures
        e@ == ErrorView::Libmpv("libmpv library load failed: "@ + detail@),
{
    let mut m = String::from_str("libmpv library load failed: ");
    m.append(detail);
    Error::Libmpv(m)
}

} // verus!
