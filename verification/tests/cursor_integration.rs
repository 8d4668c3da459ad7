use lazytree::cursor_integration::{mapping_root, report_mapping};

#[test]
fn mapping_reports_path_and_root_state() {
    let raw = r#"{"name":"a","root":"/s/root","session_id":"session_1"}"#;
    assert_eq!(mapping_root(raw).as_deref(), Some("/s/root"));
    assert_eq!(
        report_mapping(raw, "/p/.cursor/lazytree-sessions/session_1.json", false).as_deref(),
        Some(r#"{"mapping_path":"/p/.cursor/lazytree-sessions/session_1.json","name":"a","root":"/s/root","root_exists":false,"session_id":"session_1"}"#)
    );
    assert_eq!(
        report_mapping(raw, "/m.json", true).as_deref(),
        Some(r#"{"mapping_path":"/m.json","name":"a","root":"/s/root","root_exists":true,"session_id":"session_1"}"#)
    );
}

#[test]
fn mapping_without_root_gets_no_root_state() {
    let raw = r#"{"name":"a","root":7}"#;
    assert_eq!(mapping_root(raw), None);
    assert_eq!(report_mapping(raw, "/m.json", true).as_deref(), Some(r#"{"mapping_path":"/m.json","name":"a","root":7}"#));
    assert_eq!(report_mapping("[1,2]", "/m.json", true).as_deref(), Some("[1,2]"));
}

#[test]
fn unparsable_mapping_is_refused() {
    assert_eq!(mapping_root("{not json"), None);
    assert_eq!(report_mapping("{not json", "/m.json", false), None);
}
