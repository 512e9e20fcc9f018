use sudovim::reconcile::Outcome;
use sudovim::reconcile::State;
use sudovim::reconcile::classify;
use sudovim::reconcile::reconcile;
use sudovim::xxhash::XXhash64;

#[test]
fn classify_missing_path_is_new() {
    let empty: Vec<u8> = Vec::new();
    let info = classify("/tmp/absent".to_string(), false, false, &empty);
    assert_eq!(info.state, State::New);
    assert_eq!(info.path, "/tmp/absent");
    assert_eq!(info.size, 0);
    assert_eq!(info.hash, 0);
}

#[test]
fn classify_mirrored_path_is_existing() {
    let empty: Vec<u8> = Vec::new();
    let info = classify("/etc/hosts".to_string(), true, true, &empty);
    assert_eq!(info.state, State::Existing);
    assert_eq!(info.size, 0);
    assert_eq!(info.hash, 0);
}

#[test]
fn classify_unmirrored_path_captures_snapshot() {
    let contents: Vec<u8> = b"fetchcommand and friends".to_vec();
    let info = classify("/etc/portage/make.conf".to_string(), true, false, &contents);
    assert_eq!(info.state, State::Process);
    assert_eq!(info.size, contents.len());
    assert_eq!(info.hash, contents.hash());
}

#[test]
fn classify_is_idempotent() {
    // Classifying the same unmodified path twice, with no edit in between,
    // yields the same state, size and digest.
    let contents: Vec<u8> = b"unchanged between the two calls".to_vec();
    let first = classify("/etc/fstab".to_string(), true, false, &contents);
    let second = classify("/etc/fstab".to_string(), true, false, &contents);
    assert_eq!(first.state, second.state);
    assert_eq!(first.size, second.size);
    assert_eq!(first.hash, second.hash);
    assert_eq!(first.path, second.path);
}

#[test]
fn scenario_file_never_created() {
    // The target does not exist before or after the edit: no mirror is due.
    let empty: Vec<u8> = Vec::new();
    let info = classify("/tmp/never-written".to_string(), false, false, &empty);
    assert_eq!(info.state, State::New);
    let outcome = reconcile(&info, false, &empty);
    assert_eq!(outcome, Outcome::NotCreated);
}

#[test]
fn scenario_new_file_created() {
    // The target did not exist at snapshot time but does after the edit.
    let empty: Vec<u8> = Vec::new();
    let info = classify("/tmp/fresh".to_string(), false, false, &empty);
    let written: Vec<u8> = b"written by the editor".to_vec();
    let outcome = reconcile(&info, true, &written);
    assert_eq!(outcome, Outcome::Mirrored);
}

#[test]
fn scenario_unmodified_file() {
    // The target exists, is unmirrored, and its content did not change: no
    // mirror is due.
    let contents: Vec<u8> = b"looked at but left alone".to_vec();
    let info = classify("/etc/group".to_string(), true, false, &contents);
    assert_eq!(info.state, State::Process);
    let outcome = reconcile(&info, true, &contents);
    assert_eq!(outcome, Outcome::Unmodified);
}

#[test]
fn scenario_modified_file_different_size() {
    let before: Vec<u8> = b"short".to_vec();
    let after: Vec<u8> = b"grown noticeably longer".to_vec();
    let info = classify("/etc/passwd".to_string(), true, false, &before);
    let outcome = reconcile(&info, true, &after);
    assert_eq!(outcome, Outcome::Mirrored);
}

#[test]
fn scenario_modified_file_same_size() {
    // Equal lengths, different bytes: the digest comparison alone must
    // detect the change.
    let before: Vec<u8> = b"tweaked config A".to_vec();
    let after: Vec<u8> = b"tweaked config B".to_vec();
    assert_eq!(before.len(), after.len());
    let info = classify("/etc/profile".to_string(), true, false, &before);
    let outcome = reconcile(&info, true, &after);
    assert_eq!(outcome, Outcome::Mirrored);
}

#[test]
fn scenario_already_mirrored() {
    // The target already has a mirror at snapshot time: terminal, and no
    // mirror creation is ever requested, whatever the edit did.
    let contents: Vec<u8> = b"previously audited".to_vec();
    let info = classify("/etc/sudoers".to_string(), true, true, &contents);
    assert_eq!(info.state, State::Existing);
    let changed: Vec<u8> = b"edited once more".to_vec();
    let outcome = reconcile(&info, true, &changed);
    assert_eq!(outcome, Outcome::AlreadyMirrored);
}
