use openssh::builder::SessionBuilder;
use openssh::KnownHosts;

#[test]
fn known_hosts_options() {
    assert_eq!(KnownHosts::Strict.as_option(), "StrictHostKeyChecking=yes");
    assert_eq!(KnownHosts::Add.as_option(), "StrictHostKeyChecking=accept-new");
    assert_eq!(KnownHosts::Accept.as_option(), "StrictHostKeyChecking=no");
}

#[test]
fn default_handshake_command() {
    let b = SessionBuilder::default();
    let args = b.handshake_command("/tmp/dir/master", "me@h");
    assert_eq!(
        args,
        vec![
            "ssh",
            "-S",
            "/tmp/dir/master",
            "-M",
            "-f",
            "-N",
            "-o",
            "ControlPersist=yes",
            "-o",
            "BatchMode=yes",
            "-o",
            "StrictHostKeyChecking=accept-new",
            "me@h"
        ]
    );
}

#[test]
fn fully_configured_handshake_command() {
    let mut b = SessionBuilder::default();
    b.user("alice".to_string());
    b.port(2222);
    b.keyfile("/home/alice/.ssh/id_ed25519".to_string());
    b.connect_timeout(17);
    b.known_hosts_check(KnownHosts::Strict);
    let args = b.handshake_command("/tmp/dir/master", "example.com");
    assert_eq!(
        args,
        vec![
            "ssh",
            "-S",
            "/tmp/dir/master",
            "-M",
            "-f",
            "-N",
            "-o",
            "ControlPersist=yes",
            "-o",
            "BatchMode=yes",
            "-o",
            "StrictHostKeyChecking=yes",
            "-o",
            "ConnectTimeout=17",
            "-p",
            "2222",
            "-l",
            "alice",
            "-i",
            "/home/alice/.ssh/id_ed25519",
            "example.com"
        ]
    );
}

#[test]
fn builder_from_parsed_destination() {
    let d = openssh::destination::parse_destination("ssh://alice@example.com:2222");
    let b = SessionBuilder::for_destination(&d, KnownHosts::Accept);
    let args = b.handshake_command("/tmp/dir/master", &d.host);
    assert_eq!(
        args,
        vec![
            "ssh",
            "-S",
            "/tmp/dir/master",
            "-M",
            "-f",
            "-N",
            "-o",
            "ControlPersist=yes",
            "-o",
            "BatchMode=yes",
            "-o",
            "StrictHostKeyChecking=no",
            "-p",
            "2222",
            "-l",
            "alice",
            "example.com"
        ]
    );
}
