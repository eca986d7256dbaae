use ftp_server::paths::{basename, physical_path, pwd_display, resolve};

fn path(segs: &[&str]) -> Vec<Vec<u8>> {
    segs.iter().map(|s| s.as_bytes().to_vec()).collect()
}

#[test]
fn absolute_and_relative_resolution() {
    let cwd = path(&["thing"]);
    assert_eq!(resolve(&cwd, b"/a"), Some(path(&["a"])));
    assert_eq!(resolve(&cwd, b"./a"), Some(path(&["thing", "a"])));
    assert_eq!(resolve(&cwd, b"a/b"), Some(path(&["thing", "a", "b"])));
    assert_eq!(resolve(&cwd, b"../"), Some(path(&[])));
}

#[test]
fn dot_and_empty_segments_are_skipped() {
    let cwd = path(&[]);
    assert_eq!(resolve(&cwd, b"././a//b/."), Some(path(&["a", "b"])));
}

#[test]
fn parent_steps_stay_inside_the_root() {
    // No argument may resolve above the user's root.
    let cwd = path(&["thing", "thing2"]);
    assert_eq!(resolve(&cwd, b"../../"), Some(path(&[])));
    assert_eq!(resolve(&cwd, b"../../.."), None);
    assert_eq!(resolve(&cwd, b"/.."), None);
    assert_eq!(resolve(&path(&[]), b"../etc/passwd"), None);
    assert_eq!(resolve(&path(&[]), b"a/../../b"), None);
}

#[test]
fn pwd_rendering() {
    assert_eq!(pwd_display(&path(&[])), b"/".to_vec());
    assert_eq!(pwd_display(&path(&["thing"])), b"/thing".to_vec());
    assert_eq!(
        pwd_display(&path(&["thing", "thing2"])),
        b"/thing/thing2".to_vec()
    );
}

#[test]
fn physical_location_is_root_prefixed() {
    let p = path(&["a", "b"]);
    assert_eq!(
        physical_path(b"./root/user_a", &p),
        b"./root/user_a/a/b".to_vec()
    );
    assert_eq!(physical_path(b"./root/user_a", &path(&[])), b"./root/user_a".to_vec());
}

#[test]
fn basename_is_the_last_segment() {
    assert_eq!(basename(&path(&["a", "test"])), b"test".to_vec());
}
