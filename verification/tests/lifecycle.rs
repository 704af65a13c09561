use openssh::errors::OsError;
use openssh::session::check_verdict;
use openssh::session::master_verdict;
use openssh::session::terminate_verdict;
use openssh::Error;
use openssh::ErrorKind;
use openssh::MasterObservation;
use openssh::Session;

fn fresh_session() -> Session {
    match Session::establish("me@h", "/tmp/dir".to_string(), Some(0), "") {
        Ok(s) => s,
        Err(e) => unreachable!("{:?}", e),
    }
}

#[test]
fn handshake_failure_code_yields_no_session() {
    let r = Session::establish(
        "me@h",
        "/tmp/dir".to_string(),
        Some(255),
        "ssh: connect to host h port 22: Connection refused",
    );
    match r {
        Err(Error::Connect(e)) => {
            assert_eq!(e.kind, ErrorKind::ConnectionRefused);
            assert_eq!(e.message, "connect to host h port 22: Connection refused");
        },
        other => unreachable!("{:?}", other),
    }
}

#[test]
fn handshake_with_other_failure_code_is_local_spawn_error() {
    let r = Session::establish("me@h", "/tmp/dir".to_string(), Some(1), "usage: ssh ...");
    match r {
        Err(Error::Ssh(e)) => {
            assert_eq!(e.kind, ErrorKind::Other);
            assert_eq!(e.message, "usage: ssh ...");
        },
        other => unreachable!("{:?}", other),
    }
}

#[test]
fn handshake_without_exit_code_still_yields_session() {
    // a bootstrap process ended by a signal reports no code; only the
    // reserved connection-error code refuses the session
    let r = Session::establish("me@h", "/tmp/dir".to_string(), None, "");
    assert!(r.is_ok());
}

#[test]
fn successful_handshake_yields_live_session() {
    let s = fresh_session();
    assert!(!s.is_terminated());
    assert_eq!(s.ctl_path(), "/tmp/dir/master");
}

#[test]
fn check_command_line() {
    let s = fresh_session();
    let args = s.check_request().unwrap();
    assert_eq!(
        args,
        vec!["ssh", "-S", "/tmp/dir/master", "-o", "BatchMode=yes", "-O", "check", "me@h"]
    );
}

#[test]
fn exit_command_line() {
    let s = fresh_session();
    let args = s.terminate_request().unwrap();
    assert_eq!(
        args,
        vec!["ssh", "-S", "/tmp/dir/master", "-o", "BatchMode=yes", "-O", "exit", "me@h"]
    );
}

#[test]
fn command_line_uses_discard_port() {
    let s = fresh_session();
    let cmd = s.command("ls").unwrap();
    assert_eq!(
        cmd.into_args(),
        vec![
            "ssh",
            "-S",
            "/tmp/dir/master",
            "-T",
            "-o",
            "BatchMode=yes",
            "-p",
            "9",
            "me@h",
            "--",
            "ls"
        ]
    );
}

#[test]
fn termination_is_idempotent() {
    let mut s = fresh_session();
    assert!(s.terminate_request().is_some());
    s.mark_terminated();
    assert!(s.terminate_request().is_none());
    assert!(s.terminate_request().is_none());
}

#[test]
fn master_handle_is_taken_at_most_once() {
    let mut s = fresh_session();
    assert!(s.take_master());
    assert!(!s.take_master());
    assert!(!s.take_master());
}

#[test]
fn check_after_termination_fails_as_severed() {
    let mut s = fresh_session();
    s.mark_terminated();
    match s.check_request() {
        Err(Error::Disconnected) => {},
        other => unreachable!("{:?}", other),
    }
}

#[test]
fn command_after_termination_is_refused() {
    let mut s = fresh_session();
    s.mark_terminated();
    match s.command("ls") {
        Err(Error::Disconnected) => {},
        other => unreachable!("{:?}", other),
    }
}

#[test]
fn master_verdict_cases() {
    assert!(master_verdict(MasterObservation::Unavailable).is_none());
    assert!(master_verdict(MasterObservation::ExitedCleanly).is_none());
    match master_verdict(MasterObservation::ReadFailed(OsError::new(
        ErrorKind::Other,
        "read failed".to_string(),
    ))) {
        Some(Error::Master(e)) => assert_eq!(e.message, "read failed"),
        other => unreachable!("{:?}", other),
    }
    match master_verdict(MasterObservation::Diagnostic("  broken pipe \n".to_string())) {
        Some(Error::Master(e)) => {
            assert_eq!(e.kind, ErrorKind::Other);
            assert_eq!(e.message, "broken pipe");
        },
        other => unreachable!("{:?}", other),
    }
}

#[test]
fn check_verdict_cases() {
    assert!(check_verdict(false, None).is_ok());
    match check_verdict(true, None) {
        Err(Error::Disconnected) => {},
        other => unreachable!("{:?}", other),
    }
    match check_verdict(true, Some(Error::Master(OsError::new(ErrorKind::Other, "x".to_string())))) {
        Err(Error::Master(e)) => assert_eq!(e.message, "x"),
        other => unreachable!("{:?}", other),
    }
}

#[test]
fn terminate_verdict_cases() {
    assert!(terminate_verdict(true, None).is_ok());
    // an exit command that failed while the master had already gone away
    // cleanly is a successful close
    assert!(terminate_verdict(false, None).is_ok());
    match terminate_verdict(false, Some(Error::Master(OsError::new(
        ErrorKind::Other,
        "gone".to_string(),
    )))) {
        Err(Error::Master(e)) => assert_eq!(e.message, "gone"),
        other => unreachable!("{:?}", other),
    }
}
