use buckle::consistency::{check_prelude, expected_prelude_hash, mismatched_prelude_msg, prelude_report, strip_components, PreludeCheck};

#[test]
fn mismatch_warns_with_both_hashes() {
    let check = check_prelude(Some("abc123"), Some("def456"));
    assert_eq!(check, PreludeCheck::Mismatch { expected: "abc123".to_string(), found: "def456".to_string() });
    let lines = prelude_report(&check, "/repo/prelude");
    assert_eq!(lines.len(), 2);
    assert!(lines[0].contains("abc123") && lines[0].contains("def456"));
    assert_eq!(lines[0], "buckle: Git submodule for prelude (def456) is not the expected abc123.");
    assert_eq!(lines[1], "buckle: cd /repo/prelude && git fetch && git checkout abc123");
    // The check is advisory: the binary path does not depend on it.
    let path = "/cache/buckle/buck2/abc/buck2".to_string();
    let _ = prelude_report(&check, "/repo/prelude");
    assert_eq!(path, "/cache/buckle/buck2/abc/buck2");
}

#[test]
fn consistent_and_not_applicable() {
    assert_eq!(check_prelude(Some("abc123"), Some("abc123")), PreludeCheck::Consistent);
    assert_eq!(check_prelude(None, Some("abc123")), PreludeCheck::NotApplicable);
    assert_eq!(check_prelude(Some("abc123"), None), PreludeCheck::NotApplicable);
    assert!(prelude_report(&PreludeCheck::Consistent, "p").is_empty());
    assert!(prelude_report(&PreludeCheck::NotApplicable, "p").is_empty());
}

#[test]
fn message_lines() {
    let m = mismatched_prelude_msg("/p", "f", "e");
    assert_eq!(m, vec!["buckle: Git submodule for prelude (f) is not the expected e.".to_string(), "buckle: cd /p && git fetch && git checkout e".to_string()]);
}

#[test]
fn expected_hash_is_trimmed_text() {
    assert_eq!(
        expected_prelude_hash(&b"be8b3ede73906d6f00055ac6d1caa77f399dcf8f\n".to_vec()),
        Some("be8b3ede73906d6f00055ac6d1caa77f399dcf8f".to_string())
    );
    assert_eq!(expected_prelude_hash(&b"  abc \r\n".to_vec()), Some("abc".to_string()));
    assert_eq!(expected_prelude_hash(&vec![0xff, 0xfe]), None);
    assert_eq!(expected_prelude_hash(&vec![]), Some(String::new()));
}

#[test]
fn components_below_a_base() {
    let v = |xs: &[&str]| xs.iter().map(|x| x.to_string()).collect::<Vec<String>>();
    assert_eq!(strip_components(&v(&["home", "me", "repo", "prelude"]), &v(&["home", "me", "repo"])), Some(v(&["prelude"])));
    assert_eq!(strip_components(&v(&["home", "me"]), &v(&["home", "me"])), Some(vec![]));
    assert_eq!(strip_components(&v(&["home", "you", "prelude"]), &v(&["home", "me"])), None);
    assert_eq!(strip_components(&v(&["home"]), &v(&["home", "me"])), None);
}
