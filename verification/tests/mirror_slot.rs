use sudovim::mirror::MirrorError;
use sudovim::mirror::is_absolute;
use sudovim::mirror::mirror_slot;

#[test]
fn slot_appends_absolute_path_to_root() {
    let slot = mirror_slot("/home/user/.local/share/sudovim", "/etc/portage");
    assert_eq!(slot, "/home/user/.local/share/sudovim/etc/portage");
}

#[test]
fn slot_for_tmp_path() {
    let slot = mirror_slot("/shadow", "/tmp");
    assert_eq!(slot, "/shadow/tmp");
}

#[test]
fn slot_nests_arbitrarily_deep() {
    let slot = mirror_slot("/s", "/a/b/c/d/e");
    assert_eq!(slot, "/s/a/b/c/d/e");
}

#[test]
fn absolute_paths_recognised() {
    assert!(is_absolute("/"));
    assert!(is_absolute("/etc/passwd"));
    assert!(!is_absolute(""));
    assert!(!is_absolute("relative/path"));
    assert!(!is_absolute("./dotted"));
}

#[test]
fn mirror_errors_are_distinct() {
    assert_ne!(MirrorError::AlreadyMirrored, MirrorError::IoFailure);
    assert_ne!(MirrorError::NotFound, MirrorError::InvalidPath);
    assert_eq!(MirrorError::AlreadyMirrored, MirrorError::AlreadyMirrored);
}
