//! The per-file reconciliation state machine.
//!
//! One record is kept per target path. Before the privileged edit, the record
//! is classified from the pre-edit observations: a path that does not exist
//! yet is `New`; one that already has something at its mirror slot is
//! `Existing`; any other is `Process`, and its byte length and digest are
//! captured then, exactly once. After the edit, the outcome is decided from
//! the post-edit observations: a mirror symlink is due exactly when the
//! outcome is `Mirrored`. The session driver gathers the observations
//! (existence, mirror-slot occupancy, file contents) and performs the
//! filesystem actions; every decision in between is made here.

use vstd::prelude::*;

use crate::xxhash::XXhash64;
use crate::xxhash::spec_digest;

verus! {

/// A record's classification, decided once at snapshot time.
#[derive(Debug, Clone, Copy, PartialEq, Eq, Structural)]
pub enum State {
    /// Already mirrored under the shadow root; terminal, no further action.
    Existing,
    /// Does not exist at snapshot time.
    New,
    /// Exists and is not yet mirrored; its size and digest must be compared.
    Process,
}

/// The outcome of reconciling one record after the privileged edit.
#[derive(Debug, Clone, Copy, PartialEq, Eq, Structural)]
pub enum Outcome {
    /// The record was `New` and the path still does not exist: no action.
    NotCreated,
    /// The file is new or was modified: a mirror symlink is due.
    Mirrored,
    /// The record was `Existing`: the path already had a mirror; no action.
    AlreadyMirrored,
    /// Size and digest both match the snapshot: no action.
    Unmodified,
}

/// All the relevant information on one target file.
pub struct FileInfo {
    /// The classification, decided once at snapshot time.
    pub state: State,
    /// The target path; canonical and absolute once the file exists.
    pub path: String,
    /// Byte length at snapshot time; meaningful only for `Process` records.
    pub size: usize,
    /// Digest of the contents at snapshot time; meaningful only for
    /// `Process` records.
    pub hash: u64,
}

impl FileInfo {
    /// A fresh record, before any snapshot measurement is folded in.
    pub fn new(state: State, path: String) -> (r: FileInfo)
        ensures
            r.state == state,
            r.path@ == path@,
            r.size == 0,
            r.hash == 0,
    {
        FileInfo { state, path, size: 0, hash: 0 }
    }
}

/// The classification a record gets from the pre-edit observations: a path
/// that does not exist is `New`; an existing path whose mirror slot is
/// occupied is `Existing`; any other existing path is `Process`.
pub open spec fn spec_classify(exists: bool, mirrored: bool) -> State {
    if !exists {
        State::New
    } else if mirrored {
        State::Existing
    } else {
        State::Process
    }
}

/// Everything classification decides about a record, as a function of the
/// pre-edit observations: the state, the path carried over, and — for
/// `Process` records only — the captured size and digest.
pub open spec fn spec_classified(
    r: FileInfo,
    path: Seq<char>,
    exists: bool,
    mirrored: bool,
    contents: Seq<u8>,
) -> bool {
    &&& r.state == spec_classify(exists, mirrored)
    &&& r.path@ == path
    &&& (r.state == State::Process ==> r.size == contents.len() && r.hash == spec_digest(contents))
    &&& (r.state != State::Process ==> r.size == 0 && r.hash == 0)
}

/// Classify one target path from the pre-edit observations and take its
/// snapshot. `exists` says whether the path exists, `mirrored` whether its
/// mirror slot is occupied (only relevant when it exists), and `contents`
/// holds the file's bytes (only read when the record is `Process`).
pub fn classify(path: String, exists: bool, mirrored: bool, contents: &Vec<u8>) -> (r: FileInfo)
    ensures
        spec_classified(r, path@, exists, mirrored, contents@),
{
    if !exists {
        FileInfo::new(State::New, path)
    } else if mirrored {
        FileInfo::new(State::Existing, path)
    } else {
        let mut info = FileInfo::new(State::Process, path);
        info.size = contents.len();
        info.hash = contents.hash();
        info
    }
}

/// Classification is idempotent: two records classified from the same
/// unmodified observations agree on state, size, digest and path.
pub proof fn lemma_classify_idempotent(
    r1: FileInfo,
    r2: FileInfo,
    path: Seq<char>,
    exists: bool,
    mirrored: bool,
    contents: Seq<u8>,
)
    requires
        spec_classified(r1, path, exists, mirrored, contents),
        spec_classified(r2, path, exists, mirrored, contents),
    ensures
        r1.state == r2.state,
        r1.size == r2.size,
        r1.hash == r2.hash,
        r1.path@ == r2.path@,
{
}

/// The outcome a record gets from the post-edit observations. An `Existing`
/// record takes no action; a `New` record is mirrored exactly when the path
/// now exists; a `Process` record is mirrored exactly when its size or its
/// digest changed — either difference suffices, and equal size with equal
/// digest means unmodified.
pub open spec fn spec_reconcile(
    state: State,
    size: nat,
    hash: u64,
    exists_after: bool,
    after: Seq<u8>,
) -> Outcome {
    match state {
        State::Existing => Outcome::AlreadyMirrored,
        State::New => if exists_after {
            Outcome::Mirrored
        } else {
            Outcome::NotCreated
        },
        State::Process => if after.len() != size || spec_digest(after) != hash {
            Outcome::Mirrored
        } else {
            Outcome::Unmodified
        },
    }
}

/// An `Existing` record is terminal: whatever the edit did to the file,
/// reconciliation reports `AlreadyMirrored` and never directs the creation
/// of a mirror.
pub proof fn lemma_existing_is_terminal(size: nat, hash: u64, exists_after: bool, after: Seq<u8>)
    ensures
        spec_reconcile(State::Existing, size, hash, exists_after, after)
            == Outcome::AlreadyMirrored,
{
}

/// Decide the outcome for one record from the post-edit observations.
/// `exists_after` says whether the path exists after the edit (only relevant
/// for `New` records) and `contents_after` holds the file's bytes after the
/// edit (only read for `Process` records). A mirror symlink is due exactly
/// when the outcome is `Mirrored`; the caller then creates it at the record's
/// mirror slot. The size is compared first and the digest only on equal
/// sizes — short-circuiting for speed only, since either difference decides.
pub fn reconcile(info: &FileInfo, exists_after: bool, contents_after: &Vec<u8>) -> (o: Outcome)
    ensures
        o == spec_reconcile(info.state, info.size as nat, info.hash, exists_after, contents_after@),
        o == Outcome::Mirrored <==> {
            ||| info.state == State::New && exists_after
            ||| info.state == State::Process && (contents_after@.len() != info.size
                || spec_digest(contents_after@) != info.hash)
        },
{
    match info.state {
        State::Existing => Outcome::AlreadyMirrored,
        State::New => if exists_after {
            Outcome::Mirrored
        } else {
            Outcome::NotCreated
        },
        State::Process => {
            let size = contents_after.len();
            if size != info.size || contents_after.hash() != info.hash {
                Outcome::Mirrored
            } else {
                Outcome::Unmodified
            }
        },
    }
}

} // verus!
