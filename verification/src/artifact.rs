//! Naming and packaging the built wrapper library after a build.
use vstd::prelude::*;
use crate::text::{ends_with, is_prefix, is_suffix, same_text, starts_with};

verus! {

/// The name a build output is renamed to, if it is one of the wrapper's
/// outputs: `libmpv_wrapper.*` becomes `libmpv-wrapper.*` everywhere, and on
/// Windows `mpv_wrapper.*` does too, with a `.dll` before a further
/// extension dropped (`mpv_wrapper.dll.lib` becomes `libmpv-wrapper.lib`).
pub open spec fn artifact_rename(name: Seq<char>, windows: bool) -> Option<Seq<char>> {
    if windows && is_prefix("mpv_wrapper."@, name) {
        let suffix = name.skip("mpv_wrapper"@.len() as int);
        let kept = if is_prefix(".dll."@, suffix) {
            suffix.skip(4)
        } else {
            suffix
        };
        Some("libmpv-wrapper"@ + kept)
    } else if is_prefix("libmpv_wrapper."@, name) {
        Some("libmpv-wrapper"@ + name.skip("libmpv_wrapper"@.len() as int))
    } else {
        None
    }
}

/// The name a build output is renamed to, if it is one of the wrapper's.
pub fn renamed_artifact(name: &str, windows: bool) -> (r: Option<String>)
    ensures
        match r {
            Some(t) => artifact_rename(name@, windows) == Some(t@),
            None => artifact_rename(name@, windows) is None,
        },
{
    let n = name.unicode_len();
    if windows && starts_with(name, "mpv_wrapper.") {
        let stem_len = "mpv_wrapper".unicode_len();
        proof {
            reveal_strlit("mpv_wrapper.");
            reveal_strlit("mpv_wrapper");
            assert("mpv_wrapper."@.subrange(0, "mpv_wrapper"@.len() as int) =~= "mpv_wrapper"@);
        }
        let suffix = name.substring_char(stem_len, n);
        let mut out = String::from_str("libmpv-wrapper");
        if starts_with(suffix, ".dll.") {
            proof {
                reveal_strlit(".dll.");
            }
            let rest = suffix.substring_char(4, suffix.unicode_len());
            assert(rest@ =~= suffix@.skip(4));
            out.append(rest);
        } else {
            out.append(suffix);
        }
        assert(suffix@ =~= name@.skip("mpv_wrapper"@.len() as int));
        Some(out)
    } else if starts_with(name, "libmpv_wrapper.") {
        let stem_len = "libmpv_wrapper".unicode_len();
        proof {
            reveal_strlit("libmpv_wrapper.");
            reveal_strlit("libmpv_wrapper");
            assert("libmpv_wrapper."@.subrange(0, "libmpv_wrapper"@.len() as int)
                =~= "libmpv_wrapper"@);
        }
        let suffix = name.substring_char(stem_len, n);
        let mut out = String::from_str("libmpv-wrapper");
        out.append(suffix);
        assert(suffix@ =~= name@.skip("libmpv_wrapper"@.len() as int));
        Some(out)
    } else {
        None
    }
}

/// True for the name of a shared library: one ending in `.dll`, `.so` or
/// `.dylib`.
pub open spec fn is_shared_library(name: Seq<char>) -> bool {
    is_suffix(".dll"@, name) || is_suffix(".so"@, name) || is_suffix(".dylib"@, name)
}

/// Whether a file name is that of a shared library.
pub fn shared_library(name: &str) -> (r: bool)
    ensures
        r == is_shared_library(name@),
{
    ends_with(name, ".dll") || ends_with(name, ".so") || ends_with(name, ".dylib")
}

/// True for the name the wrapper library has once renamed.
pub open spec fn is_wrapper_library(name: Seq<char>) -> bool {
    name == "libmpv-wrapper.so"@ || name == "libmpv-wrapper.dylib"@ || name
        == "libmpv-wrapper.dll"@
}

/// The library to package after looking at one more build output: a renamed
/// shared library replaces the current one once its renaming succeeded, and
/// an output that already has the wrapper library's name replaces it too.
pub open spec fn next_library(
    current: Seq<char>,
    name: Seq<char>,
    windows: bool,
    rename_ok: bool,
) -> Seq<char> {
    match artifact_rename(name, windows) {
        Some(new_name) => if rename_ok && is_shared_library(new_name) {
            new_name
        } else {
            current
        },
        None => if is_wrapper_library(name) {
            name
        } else {
            current
        },
    }
}

/// The library to package after looking at one more build output, given
/// whether renaming that output (where it is renamed) succeeded.
pub fn library_after(current: String, name: &str, windows: bool, rename_ok: bool) -> (r: String)
    ensures
        r@ == next_library(current@, name@, windows, rename_ok),
{
    match renamed_artifact(name, windows) {
        Some(new_name) => {
            if rename_ok && shared_library(new_name.as_str()) {
                new_name
            } else {
                current
            }
        },
        None => {
            if same_text(name, "libmpv-wrapper.so") || same_text(name, "libmpv-wrapper.dylib")
                || same_text(name, "libmpv-wrapper.dll") {
                name.to_string()
            } else {
                current
            }
        },
    }
}

/// The name of the release archive for an operating system and an
/// architecture.
pub open spec fn package_file_name(os: Seq<char>, arch: Seq<char>) -> Seq<char> {
    "libmpv-wrapper-"@ + os + "-"@ + arch + ".zip"@
}

/// The name of the release archive for an operating system and an
/// architecture.
pub fn package_name(os: &str, arch: &str) -> (r: String)
    ensures
        r@ == package_file_name(os@, arch@),
{
    let mut r = String::from_str("libmpv-wrapper-");
    r.append(os);
    r.append("-");
    r.append(arch);
    r.append(".zip");
    r
}

/// The directory a packaged file is taken from.
#[derive(Clone, Copy, Debug, PartialEq, Eq, Structural)]
pub enum PackageBase {
    /// The build's output directory.
    Output,
    /// The crate's own directory.
    Manifest,
}

/// One file of the release archive: where it is taken from, and its path
/// inside the archive.
pub struct PackageFile {
    pub base: PackageBase,
    pub source: String,
    pub dest: String,
}

/// The view of a packaged file.
pub open spec fn package_file_view(f: PackageFile) -> (PackageBase, Seq<char>, Seq<char>) {
    (f.base, f.source@, f.dest@)
}

/// The files of the release archive: the library under `bin/` (where one was
/// found), on Windows its import library under `lib/`, then the C header and
/// the licence.
pub open spec fn package_contents(library: Seq<char>, windows: bool) -> Seq<
    (PackageBase, Seq<char>, Seq<char>),
> {
    let lib_part = if library.len() > 0 {
        seq![(PackageBase::Output, library, "bin/"@ + library)]
    } else {
        seq![]
    };
    let import_part = if windows {
        seq![(PackageBase::Output, "libmpv-wrapper.lib"@, "lib/libmpv-wrapper.lib"@)]
    } else {
        seq![]
    };
    lib_part + import_part + seq![
        (PackageBase::Manifest, "include/libmpv_wrapper.h"@, "include/libmpv_wrapper.h"@),
        (PackageBase::Manifest, "LICENSE"@, "LICENSE"@),
    ]
}

/// The files of the release archive.
pub fn package_files(library: &str, windows: bool) -> (r: Vec<PackageFile>)
    ensures
        r@.map_values(|f: PackageFile| package_file_view(f)) == package_contents(library@, windows),
{
    let mut files: Vec<PackageFile> = Vec::new();
    if !library.is_empty() {
        let mut dest = String::from_str("bin/");
        dest.append(library);
        files.push(PackageFile { base: PackageBase::Output, source: library.to_string(), dest });
    }
    if windows {
        files.push(
            PackageFile {
                base: PackageBase::Output,
                source: String::from_str("libmpv-wrapper.lib"),
                dest: String::from_str("lib/libmpv-wrapper.lib"),
            },
        );
    }
    files.push(
        PackageFile {
            base: PackageBase::Manifest,
            source: String::from_str("include/libmpv_wrapper.h"),
            dest: String::from_str("include/libmpv_wrapper.h"),
        },
    );
    files.push(
        PackageFile {
            base: PackageBase::Manifest,
            source: String::from_str("LICENSE"),
            dest: String::from_str("LICENSE"),
        },
    );
    assert(files@.map_values(|f: PackageFile| package_file_view(f)) =~= package_contents(
        library@,
        windows,
    ));
    files
}

/// Renaming is done once: a renamed output's new name is not renamed again,
/// and it always starts with `libmpv-wrapper`.
pub proof fn law_rename_is_final(name: Seq<char>, windows: bool)
    ensures
        artifact_rename(name, windows) matches Some(new_name) ==> {
            &&& is_prefix("libmpv-wrapper"@, new_name)
            &&& artifact_rename(new_name, windows) is None
        },
{
    if let Some(new_name) = artifact_rename(name, windows) {
        reveal_strlit("libmpv-wrapper");
        reveal_strlit("mpv_wrapper.");
        reveal_strlit("libmpv_wrapper.");
        assert(new_name.subrange(0, 14) =~= "libmpv-wrapper"@);
        assert(new_name[0] == 'l');
        assert(new_name[6] == '-');
        assert(!is_prefix("mpv_wrapper."@, new_name)) by {
            if is_prefix("mpv_wrapper."@, new_name) {
                assert(new_name.subrange(0, 12)[0] == 'm');
            }
        }
        assert(!is_prefix("libmpv_wrapper."@, new_name)) by {
            if is_prefix("libmpv_wrapper."@, new_name) {
                assert(new_name.subrange(0, 15)[6] == '_');
            }
        }
    }
}

/// The library is always packaged: whenever its name is not empty, the
/// archive holds it from the output directory under `bin/`, on every
/// operating system; the header and the licence are always there, and the
/// import library is there exactly on Windows.
pub proof fn law_library_always_packaged(library: Seq<char>, windows: bool)
    ensures
        library.len() > 0 ==> exists|k: int|
            0 <= k < package_contents(library, windows).len() && #[trigger] package_contents(
                library,
                windows,
            )[k] == (PackageBase::Output, library, "bin/"@ + library),
        package_contents(library, windows).contains(
            (PackageBase::Manifest, "include/libmpv_wrapper.h"@, "include/libmpv_wrapper.h"@),
        ),
        package_contents(library, windows).contains((PackageBase::Manifest, "LICENSE"@, "LICENSE"@)),
        windows ==> package_contents(library, windows).contains(
            (PackageBase::Output, "libmpv-wrapper.lib"@, "lib/libmpv-wrapper.lib"@),
        ),
{
    let c = package_contents(library, windows);
    let n = c.len() as int;
    assert(c[n - 2] == (PackageBase::Manifest, "include/libmpv_wrapper.h"@, "include/libmpv_wrapper.h"@));
    assert(c[n - 1] == (PackageBase::Manifest, "LICENSE"@, "LICENSE"@));
    if library.len() > 0 {
        assert(c[0] == (PackageBase::Output, library, "bin/"@ + library));
    }
    if windows {
        let k = if library.len() > 0 { 1int } else { 0int };
        assert(c[k] == (PackageBase::Output, "libmpv-wrapper.lib"@, "lib/libmpv-wrapper.lib"@));
    }
}

} // verus!
