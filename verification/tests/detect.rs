use lazytree::filesystem::detect::{is_mounted, mountinfo_is_decodable, mountinfo_mount_point, unescape_mount_path};

#[test]
fn mountinfo_field5() {
    let line = "36 35 98:0 /mnt1 /mnt2 rw,noatime master:1 - ext3 /dev/root rw,errors=continue";
    assert_eq!(mountinfo_mount_point(line).as_deref(), Some("/mnt2"));
}

#[test]
fn mountinfo_unescape_space() {
    let line = "1 2 3:4 / /tmp/foo\\040bar rw - tmpfs tmpfs rw";
    assert_eq!(mountinfo_mount_point(line).as_deref(), Some("/tmp/foo bar"));
}

#[test]
fn mountinfo_short_line_has_no_mount_point() {
    assert_eq!(mountinfo_mount_point("1 2 3:4 /"), None);
    assert_eq!(mountinfo_mount_point(""), None);
}

#[test]
fn unescape_tab_newline_backslash() {
    assert_eq!(unescape_mount_path("a\\011b\\012c\\134d"), "a\tb\nc\\d");
    assert_eq!(unescape_mount_path("plain"), "plain");
}

#[test]
fn is_mounted_finds_listed_mount_point() {
    let info = "1 2 3:4 / / rw - ext4 /dev/sda rw\n36 35 98:0 / /tmp/lt\\040root rw - fuse fuse rw\n";
    assert!(is_mounted("/tmp/lt root", info));
    assert!(is_mounted("/", info));
    assert!(!is_mounted("/tmp/lt", info));
    assert!(!is_mounted("/tmp/other", info));
}

#[test]
fn mountinfo_decodability() {
    assert!(mountinfo_is_decodable("1 2 3:4 / /a\\040b rw - tmpfs tmpfs rw\n36 35 98:0 / /c rw\n"));
    assert!(mountinfo_is_decodable(""));
    assert!(mountinfo_is_decodable("1 2 3:4 / /x\\abcé rw"));
    assert!(!mountinfo_is_decodable("1 2 3:4 / /ok rw\n1 2 3:4 / /x\\abé rw\n"));
    assert!(mountinfo_is_decodable("short \\abé line"));
}
