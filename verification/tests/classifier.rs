use openssh::interpret_ssh_error;
use openssh::Error;
use openssh::ErrorKind;

#[test]
fn parse_error() {
    let err = "ssh: Warning: Permanently added \'login.csail.mit.edu,128.52.131.0\' (ECDSA) to the list of known hosts.\r\nopenssh-tester@login.csail.mit.edu: Permission denied (publickey,gssapi-keyex,gssapi-with-mic,password,keyboard-interactive).";
    let err = interpret_ssh_error(err);
    if let Error::Connect(e) = err {
        assert_eq!(e.kind, ErrorKind::PermissionDenied);
        assert_eq!(
            e.message,
            "openssh-tester@login.csail.mit.edu: Permission denied (publickey,gssapi-keyex,gssapi-with-mic,password,keyboard-interactive)."
        );
    } else {
        unreachable!("{:?}", err);
    }
}

fn classified(text: &str) -> (ErrorKind, String) {
    match interpret_ssh_error(text) {
        Error::Connect(e) => (e.kind, e.message),
        other => unreachable!("{:?}", other),
    }
}

#[test]
fn resolution_failure_is_unclassified() {
    let (kind, msg) = classified("ssh: Could not resolve hostname x: Name or service not known");
    assert_eq!(kind, ErrorKind::Other);
    assert_eq!(msg, "Could not resolve hostname x: Name or service not known");
}

#[test]
fn connection_refused_is_refused() {
    let (kind, msg) = classified("ssh: connect to host h port 22: Connection refused");
    assert_eq!(kind, ErrorKind::ConnectionRefused);
    assert_eq!(msg, "connect to host h port 22: Connection refused");
}

#[test]
fn permission_denied_is_denied() {
    let (kind, msg) = classified("ssh: user@host: Permission denied (publickey).");
    assert_eq!(kind, ErrorKind::PermissionDenied);
    assert_eq!(msg, "user@host: Permission denied (publickey).");
}

#[test]
fn permission_denied_after_connect_phase_is_unclassified() {
    let (kind, _) = classified("ssh: connect to host h port 22: Permission denied (publickey).");
    assert_eq!(kind, ErrorKind::Other);
}

#[test]
fn network_unreachable_is_unclassified() {
    let (kind, _) = classified("ssh: connect to host h port 22: Network is unreachable");
    assert_eq!(kind, ErrorKind::Other);
}

#[test]
fn unmatched_text_keeps_default_category() {
    let (kind, msg) = classified("ssh: something: entirely different");
    assert_eq!(kind, ErrorKind::ConnectionAborted);
    assert_eq!(msg, "something: entirely different");

    let (kind, msg) = classified("no separator at all");
    assert_eq!(kind, ErrorKind::ConnectionAborted);
    assert_eq!(msg, "no separator at all");
}

#[test]
fn warning_line_is_stripped_and_remainder_kept_verbatim() {
    let (kind, msg) = classified(
        "Warning: Permanently added 'h' (ED25519) to the list of known hosts.\r\nconnect to host h port 22: Connection refused",
    );
    assert_eq!(kind, ErrorKind::ConnectionRefused);
    assert_eq!(msg, "connect to host h port 22: Connection refused");
}

#[test]
fn warning_without_line_break_leaves_nothing() {
    let (kind, msg) = classified("ssh: Warning: Permanently added 'h' to the list of known hosts.");
    assert_eq!(kind, ErrorKind::ConnectionAborted);
    assert_eq!(msg, "");
}

#[test]
fn empty_text_keeps_default_category() {
    let (kind, msg) = classified("");
    assert_eq!(kind, ErrorKind::ConnectionAborted);
    assert_eq!(msg, "");
}

#[test]
fn surrounding_whitespace_is_trimmed() {
    let (kind, msg) = classified("  ssh: connect to host h port 22: Connection refused\n");
    assert_eq!(kind, ErrorKind::ConnectionRefused);
    assert_eq!(msg, "connect to host h port 22: Connection refused");
}

#[test]
fn unicode_whitespace_is_trimmed_too() {
    let (kind, msg) =
        classified("\u{a0}ssh: connect to host h port 22: Connection refused\u{85}\u{2028}");
    assert_eq!(kind, ErrorKind::ConnectionRefused);
    assert_eq!(msg, "connect to host h port 22: Connection refused");
}
