use lazytree::cli::{exit_status, listed_state};
use lazytree::metadata::FilesystemBackendKind as K;
use lazytree::session::{FilesystemMeta, LayerState, RuntimeMeta, Session};
use lazytree::text::{i64_to_decimal, parse_u64, trim_str, u64_to_decimal};
use lazytree::util::{hex_prefix, shell_quote, short_id};

#[test]
fn shell_quoting() {
    assert_eq!(shell_quote("plain"), "'plain'");
    assert_eq!(shell_quote(""), "''");
    assert_eq!(shell_quote("it's"), "'it'\"'\"'s'");
    assert_eq!(shell_quote("''"), "''\"'\"''\"'\"''");
    assert_eq!(shell_quote("a b$c\\d\"e"), "'a b$c\\d\"e'");
}

#[test]
fn short_ids_are_twelve_hex() {
    let a = short_id();
    assert_eq!(a.len(), 12);
    assert!(a.chars().all(|c| c.is_ascii_digit() || ('a'..='f').contains(&c)));
    assert_ne!(short_id(), a);
    assert_eq!(hex_prefix(&vec![0x0f, 0xa0, 0xff], 2), "0fa0");
}

#[test]
fn decimal_text() {
    assert_eq!(u64_to_decimal(0), "0");
    assert_eq!(u64_to_decimal(18446744073709551615), "18446744073709551615");
    assert_eq!(i64_to_decimal(-42), "-42");
    assert_eq!(parse_u64(&"123".chars().collect()), Some(123));
    assert_eq!(parse_u64(&"+7".chars().collect()), Some(7));
    assert_eq!(parse_u64(&"".chars().collect()), None);
    assert_eq!(parse_u64(&"18446744073709551616".chars().collect()), None);
    assert_eq!(trim_str("  a b \n"), "a b");
}

#[test]
fn list_state_and_exit_codes() {
    let mut s = Session {
        version: 1,
        id: "i".to_string(),
        name: "n".to_string(),
        repository_id: "r".to_string(),
        base_revision: "b".to_string(),
        branch: "lazytree/n".to_string(),
        filesystem: FilesystemMeta { backend: K::Auto, state: "mounted".to_string() },
        git: LayerState { state: "ready".to_string() },
        semantic: LayerState { state: "inherited".to_string() },
        runtime: RuntimeMeta { backend: "local".to_string(), state: "none".to_string() },
        created_at: "t".to_string(),
        updated_at: "t".to_string(),
        session_dir: "/d".to_string(),
        lifecycle: "ready".to_string(),
    };
    assert_eq!(listed_state(&s), "mounted");
    s.lifecycle = "archived".to_string();
    assert_eq!(listed_state(&s), "archived");
    assert_eq!(exit_status(0), 0);
    assert_eq!(exit_status(257), 1);
    assert_eq!(exit_status(-1), 255);
}
