use cgroup_sock::cgroup_path::{cgroup_dir, current_cgroup, is_space};
use cgroup_sock::naming::{cgroup_name, fresh_cgroup_name, SUFFIX_LEN};

#[test]
fn name_joins_interface_and_suffix() {
    assert_eq!(cgroup_name("eth0", "abcdEF12"), "eth0_abcdEF12");
    assert_eq!(cgroup_name("", "x"), "_x");
}

#[test]
fn different_suffixes_give_different_names() {
    assert_ne!(cgroup_name("eth0", "aaaaaaaa"), cgroup_name("eth0", "aaaaaaab"));
    assert_ne!(cgroup_name("eth0", "Zz019xyQ"), cgroup_name("eth0", "zz019xyQ"));
}

#[test]
fn fresh_name_has_random_alphanumeric_suffix() {
    let name = fresh_cgroup_name("wlan0");
    assert!(name.starts_with("wlan0_"));
    let suffix = &name["wlan0_".len()..];
    assert_eq!(suffix.chars().count(), SUFFIX_LEN);
    assert!(suffix.chars().all(|c| c.is_ascii_alphanumeric()));
}

#[test]
fn fresh_names_for_one_interface_differ() {
    let a = fresh_cgroup_name("eth0");
    let b = fresh_cgroup_name("eth0");
    assert_ne!(a, b);
}

#[test]
fn base_path_is_read_below_mount_root() {
    assert_eq!(cgroup_dir("/user.slice/app"), "/sys/fs/cgroup/user.slice/app");
    assert_eq!(cgroup_dir("///user.slice"), "/sys/fs/cgroup/user.slice");
    assert_eq!(cgroup_dir("/"), "/sys/fs/cgroup/");
    assert_eq!(cgroup_dir(""), "/sys/fs/cgroup/");
    assert_eq!(cgroup_dir("system.slice"), "/sys/fs/cgroup/system.slice");
}

#[test]
fn current_cgroup_takes_last_field() {
    assert_eq!(
        current_cgroup("0::/user.slice/user-1000.slice/session-2.scope\n"),
        "/user.slice/user-1000.slice/session-2.scope"
    );
    assert_eq!(current_cgroup("0::/\n"), "/");
    assert_eq!(current_cgroup("/plain \t\n"), "/plain");
    assert_eq!(current_cgroup("a:b:\n"), "");
    assert_eq!(current_cgroup(""), "");
}

#[test]
fn white_space_matches_std() {
    for c in ['\t', '\n', '\r', ' ', '\u{85}', '\u{a0}', '\u{2003}', '\u{3000}', 'a', ':', '/', '\u{200b}'] {
        assert_eq!(is_space(c), c.is_whitespace());
    }
}
