use rbw_agent::requester::{requester_name, sanitize_process_name};

#[test]
fn sanitizes_process_names_for_pinentry() {
    assert_eq!(sanitize_process_name("ssh\n%0A evil"), "ssh??0A?evil");
}

#[test]
fn process_names_are_cut() {
    let long: String = "a".repeat(200);
    assert_eq!(sanitize_process_name(&long), "a".repeat(128));
    assert_eq!(sanitize_process_name(&"\u{e9}".repeat(200)), "?".repeat(128));
}

#[test]
fn sanitizing_twice_is_sanitizing_once() {
    for name in ["git-remote_https.1+2", "x y\u{1f600}", "", "??", "{|}~@[`:/"] {
        let once = sanitize_process_name(name);
        assert_eq!(sanitize_process_name(&once), once);
    }
    assert_eq!(sanitize_process_name("git-remote_https.1+2"), "git-remote_https.1+2");
    assert_eq!(sanitize_process_name("{|}~@[`:/"), "?????????");
}

#[test]
fn requester_names() {
    assert_eq!(requester_name(None, Some("ssh")), "unknown process");
    assert_eq!(requester_name(Some(4711), Some("ssh")), "ssh (pid 4711)");
    assert_eq!(requester_name(Some(0), None), "process (pid 0)");
    assert_eq!(requester_name(Some(-12), Some("a b")), "a?b (pid -12)");
    assert_eq!(requester_name(Some(i32::MIN), None), "process (pid -2147483648)");
}
