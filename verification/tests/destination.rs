use openssh::destination::parse_destination;

#[test]
fn uri_form_is_fully_split() {
    let d = parse_destination("ssh://alice@example.com:2222");
    assert_eq!(d.user.as_deref(), Some("alice"));
    assert_eq!(d.host, "example.com");
    assert_eq!(d.port, Some(2222));
}

#[test]
fn schemeless_form_has_no_port_override() {
    let d = parse_destination("bob@example.com");
    assert_eq!(d.user.as_deref(), Some("bob"));
    assert_eq!(d.host, "example.com");
    assert_eq!(d.port, None);
}

#[test]
fn bare_host_parses_whole() {
    let d = parse_destination("example.com");
    assert_eq!(d.user, None);
    assert_eq!(d.host, "example.com");
    assert_eq!(d.port, None);
}

#[test]
fn uri_form_without_user_or_port() {
    let d = parse_destination("ssh://example.com");
    assert_eq!(d.user, None);
    assert_eq!(d.host, "example.com");
    assert_eq!(d.port, None);
}

#[test]
fn invalid_port_falls_back_to_opaque_remainder() {
    let d = parse_destination("ssh://example.com:word");
    assert_eq!(d.user, None);
    assert_eq!(d.host, "example.com:word");
    assert_eq!(d.port, None);
}

#[test]
fn port_out_of_range_falls_back() {
    let d = parse_destination("ssh://example.com:65536");
    assert_eq!(d.host, "example.com:65536");
    assert_eq!(d.port, None);
}

#[test]
fn largest_port_is_accepted() {
    let d = parse_destination("ssh://example.com:65535");
    assert_eq!(d.host, "example.com");
    assert_eq!(d.port, Some(65535));
}

#[test]
fn leading_zeroes_in_port_are_numeric() {
    let d = parse_destination("ssh://example.com:00022");
    assert_eq!(d.host, "example.com");
    assert_eq!(d.port, Some(22));
}

#[test]
fn empty_port_falls_back() {
    let d = parse_destination("ssh://example.com:");
    assert_eq!(d.host, "example.com:");
    assert_eq!(d.port, None);
}

#[test]
fn signed_port_is_not_numeric() {
    let d = parse_destination("ssh://example.com:+22");
    assert_eq!(d.host, "example.com:+22");
    assert_eq!(d.port, None);
}

#[test]
fn user_split_happens_at_last_at_sign() {
    let d = parse_destination("ssh://a@b@example.com:22");
    assert_eq!(d.user.as_deref(), Some("a@b"));
    assert_eq!(d.host, "example.com");
    assert_eq!(d.port, Some(22));
}
