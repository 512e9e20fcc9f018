//! Mirror-slot computation for the shadow tree.
//!
//! Every mirrored file is represented by a symlink under the shadow root: for
//! an absolute source path `/a/b/c` and shadow root `<root>`, the mirror lives
//! at `<root>/a/b/c` — the root with the source path appended, its leading
//! slash serving as the separator. This module computes that slot; whether
//! anything occupies it, and the creation of the symlink itself, are
//! filesystem questions answered by the session driver around this crate.

use vstd::prelude::*;
use vstd::string::StrSliceExecFns;
use vstd::string::StringExecFns;

verus! {

/// How a mirror operation can fail. The slot computation itself is total;
/// these conditions arise when the session driver applies it to the
/// filesystem, and are shared vocabulary between this crate and the driver.
#[derive(Debug, Clone, Copy, PartialEq, Eq, Structural)]
pub enum MirrorError {
    /// The path is absent; not an error in itself — it drives the `New`
    /// classification.
    NotFound,
    /// The path handed in was not canonical and absolute: a programming
    /// error of the caller, who must canonicalize first.
    InvalidPath,
    /// The mirror slot is already occupied; creating a mirror there is a
    /// logic error, fatal to that record only.
    AlreadyMirrored,
    /// Any other filesystem failure (permissions, device, space); aborts
    /// the record it struck and leaves all others untouched.
    IoFailure,
}

/// A path is absolute when it starts with a slash.
pub open spec fn spec_is_absolute(p: Seq<char>) -> bool {
    p.len() > 0 && p[0] == '/'
}

/// Whether `p` is an absolute path.
pub fn is_absolute(p: &str) -> (r: bool)
    ensures
        r == spec_is_absolute(p@),
{
    if p.is_empty() {
        false
    } else {
        p.get_char(0) == '/'
    }
}

/// The location of the mirror for `abs_path` under `root`: the root with the
/// absolute path appended, so the shadow tree repeats the directory structure
/// of the filesystem below the root.
pub fn mirror_slot(root: &str, abs_path: &str) -> (slot: String)
    requires
        spec_is_absolute(abs_path@),
    ensures
        slot@ == root@ + abs_path@,
{
    let mut slot = root.to_owned();
    slot.append(abs_path);
    slot
}

} // verus!
