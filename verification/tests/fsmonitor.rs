use lazytree::fsmonitor::{
    fsmonitor_enabled, fsmonitor_git_configs, fsmonitor_hook_script, list_upper_paths, next_token,
    query_v2, shell_single_quote, UpperEntry, UpperKind,
};

fn file(name: &str) -> UpperEntry {
    UpperEntry { name: name.to_string(), kind: UpperKind::File, children: Vec::new() }
}

fn dir(name: &str, children: Vec<UpperEntry>) -> UpperEntry {
    UpperEntry { name: name.to_string(), kind: UpperKind::Dir, children }
}

#[test]
fn empty_upper_lists_nothing() {
    assert!(list_upper_paths(&Vec::new()).is_empty());
}

#[test]
fn lists_files_and_strips_wh_prefix() {
    let entries = vec![
        dir("src", vec![file("a.rs")]),
        file(".wh.gone.txt"),
    ];
    let paths = list_upper_paths(&entries);
    assert!(paths.iter().any(|p| p == "src" || p == "src/a.rs"));
    assert!(paths.iter().any(|p| p == "gone.txt"));
    assert_eq!(paths, vec!["gone.txt".to_string(), "src".to_string(), "src/a.rs".to_string()]);
}

#[test]
fn upper_paths_skip_git_and_report_opaque_dirs_once() {
    let entries = vec![
        dir(".git", vec![file("HEAD")]),
        dir("lib", vec![file(".wh..wh..opq"), file("x.rs")]),
        file("b.txt"),
        file("b.txt"),
    ];
    let paths = list_upper_paths(&entries);
    assert_eq!(paths, vec!["b.txt".to_string(), "lib".to_string(), "lib/x.rs".to_string()]);
}

#[test]
fn char_device_whiteouts_report_the_deleted_path() {
    let entries = vec![UpperEntry { name: "gone.txt".to_string(), kind: UpperKind::CharDevice, children: Vec::new() }];
    assert_eq!(list_upper_paths(&entries), vec!["gone.txt".to_string()]);
}

#[test]
fn listing_is_never_empty_or_git() {
    let entries = vec![
        file(""),
        file(".git"),
        file(".wh..git"),
        dir(".wh..gitx", vec![file(".wh..wh..opq")]),
        dir("d", vec![file(""), dir(".git", vec![file("x")]), dir("e", vec![file(".wh..wh..opq")])]),
    ];
    let paths = list_upper_paths(&entries);
    assert_eq!(
        paths,
        vec![".gitx".to_string(), ".wh..gitx".to_string(), "d".to_string(), "d/".to_string(), "d/.git".to_string(),
            "d/.git/x".to_string(), "d/e".to_string()]
    );
    for p in &paths {
        assert!(!p.is_empty() && p != ".git" && !p.starts_with(".git/") && !p.starts_with('/'));
    }
    // A top-level name starting with a backslash is turned into a path starting with `/`.
    assert_eq!(list_upper_paths(&vec![file("\\x")]), vec!["/x".to_string()]);
}

#[test]
fn listing_covers_nested_entries() {
    let entries = vec![dir("a", vec![dir("b", vec![file("c"), file(".wh.d"), file(".wh..wh..opq")])])];
    assert_eq!(
        list_upper_paths(&entries),
        vec!["a".to_string(), "a/b".to_string(), "a/b/c".to_string(), "a/b/d".to_string()]
    );
}

#[test]
fn tokens_count_up_from_ours() {
    assert_eq!(next_token("lt:41"), "lt:42");
    assert_eq!(next_token(""), "lt:1");
    assert_eq!(next_token("other:7"), "lt:1");
    assert_eq!(next_token("lt:18446744073709551615"), "lt:18446744073709551615");
}

#[test]
fn query_answer_is_nul_framed() {
    let out = query_v2("lt:1", &vec!["a".to_string(), "b/c".to_string()]);
    assert_eq!(out, b"lt:2\0a\0b/c\0".to_vec());
    assert_eq!(query_v2("", &Vec::new()), b"lt:1\0".to_vec());
}

#[test]
fn fsmonitor_switch_and_configs() {
    assert!(fsmonitor_enabled(None));
    assert!(fsmonitor_enabled(Some("1")));
    assert!(!fsmonitor_enabled(Some("0")));
    let cfg = fsmonitor_git_configs("/h/hook");
    assert_eq!(
        cfg,
        vec![
            ("core.fsmonitor".to_string(), "/h/hook".to_string()),
            ("core.fsmonitorHookVersion".to_string(), "2".to_string()),
            ("fsmonitor.allowRemote".to_string(), "true".to_string()),
        ]
    );
}

#[test]
fn hook_script_quotes_paths() {
    let s = fsmonitor_hook_script("/up per", "/bin/it's");
    assert!(s.starts_with("#!/usr/bin/env bash\n"));
    assert!(s.contains("UPPER='/up per'\nLT_BIN='/bin/it'\"'\"'s'\n"));
    assert!(s.ends_with("fi\n"));
    assert_eq!(shell_single_quote("a'b"), "'a'\"'\"'b'");
}
