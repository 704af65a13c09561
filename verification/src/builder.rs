//! Connection configuration and the argument vector for the one-time
//! authenticated handshake.

use vstd::prelude::*;
use vstd::string::StringExecFns;

use crate::destination::Destination;
use crate::text::decimal;
use crate::text::u64_to_string;

verus! {

/// Specifies how the host's key fingerprint should be handled.
#[derive(Clone, Copy, Debug, PartialEq, Eq, Structural)]
pub enum KnownHosts {
    /// The host's fingerprint must match what is in the known hosts file.
    ///
    /// If the host is not in the known hosts file, the connection is
    /// rejected.
    Strict,
    /// Strict, but if the host is not already in the known hosts file, it
    /// will be added.
    Add,
    /// Accept whatever key the server provides and add it to the known
    /// hosts file.
    Accept,
}

/// The transport option token that enforces a host-key policy.
pub open spec fn known_hosts_option(k: KnownHosts) -> Seq<char> {
    match k {
        KnownHosts::Strict => "StrictHostKeyChecking=yes"@,
        KnownHosts::Add => "StrictHostKeyChecking=accept-new"@,
        KnownHosts::Accept => "StrictHostKeyChecking=no"@,
    }
}

impl KnownHosts {
    /// The transport option token that enforces this policy.
    pub fn as_option(&self) -> (r: &'static str)
        ensures
            r@ == known_hosts_option(*self),
    {
        match *self {
            KnownHosts::Strict => "StrictHostKeyChecking=yes",
            KnownHosts::Add => "StrictHostKeyChecking=accept-new",
            KnownHosts::Accept => "StrictHostKeyChecking=no",
        }
    }
}

/// Connection configuration prior to the handshake.
#[derive(Debug)]
pub struct SessionBuilder {
    user: Option<String>,
    port: Option<u16>,
    keyfile: Option<String>,
    connect_timeout: Option<u64>,
    known_hosts_check: KnownHosts,
}

/// Mathematical model of a [`SessionBuilder`].
pub struct SessionBuilderView {
    /// The user to log in as.
    pub user: Option<Seq<char>>,
    /// The port to connect on.
    pub port: Option<u16>,
    /// The path of the private-key file to authenticate with.
    pub keyfile: Option<Seq<char>>,
    /// The connection timeout, in whole seconds.
    pub connect_timeout: Option<u64>,
    /// The host-key verification policy.
    pub known_hosts_check: KnownHosts,
}

impl View for SessionBuilder {
    type V = SessionBuilderView;

    closed spec fn view(&self) -> SessionBuilderView {
        SessionBuilderView {
            user: match self.user {
                Some(ref u) => Some(u@),
                None => None,
            },
            port: self.port,
            keyfile: match self.keyfile {
                Some(ref k) => Some(k@),
                None => None,
            },
            connect_timeout: self.connect_timeout,
            known_hosts_check: self.known_hosts_check,
        }
    }
}

/// The default configuration: nothing set, host keys accepted and added.
pub open spec fn default_builder() -> SessionBuilderView {
    SessionBuilderView {
        user: None,
        port: None,
        keyfile: None,
        connect_timeout: None,
        known_hosts_check: KnownHosts::Add,
    }
}

impl Default for SessionBuilder {
    /// A builder with every option unset and the default host-key policy.
    fn default() -> (r: Self)
        ensures
            r@ == default_builder(),
    {
        Self {
            user: None,
            port: None,
            keyfile: None,
            connect_timeout: None,
            known_hosts_check: KnownHosts::Add,
        }
    }
}

impl SessionBuilder {
    /// Set the user to log in as (the transport's `-l`).
    ///
    /// Defaults to none.
    pub fn user(&mut self, user: String)
        ensures
            final(self)@ == (SessionBuilderView { user: Some(user@), ..old(self)@ }),
    {
        self.user = Some(user);
    }

    /// Set the port to connect on (the transport's `-p`).
    ///
    /// Defaults to none.
    pub fn port(&mut self, port: u16)
        ensures
            final(self)@ == (SessionBuilderView { port: Some(port), ..old(self)@ }),
    {
        self.port = Some(port);
    }

    /// Set the private-key file to authenticate with (the transport's `-i`).
    ///
    /// Defaults to none.
    pub fn keyfile(&mut self, p: String)
        ensures
            final(self)@ == (SessionBuilderView { keyfile: Some(p@), ..old(self)@ }),
    {
        self.keyfile = Some(p);
    }

    /// Set the host-key verification policy; see [`KnownHosts`].
    ///
    /// Defaults to [`KnownHosts::Add`].
    pub fn known_hosts_check(&mut self, k: KnownHosts)
        ensures
            final(self)@ == (SessionBuilderView { known_hosts_check: k, ..old(self)@ }),
    {
        self.known_hosts_check = k;
    }

    /// Set the connection timeout in whole seconds (the transport's
    /// `ConnectTimeout` option).
    ///
    /// Defaults to none.
    pub fn connect_timeout(&mut self, secs: u64)
        ensures
            final(self)@ == (SessionBuilderView { connect_timeout: Some(secs), ..old(self)@ }),
    {
        self.connect_timeout = Some(secs);
    }
}

/// The timeout arguments the handshake passes on, if a timeout was set.
pub open spec fn timeout_args(b: SessionBuilderView) -> Seq<Seq<char>> {
    match b.connect_timeout {
        Some(secs) => seq!["-o"@, "ConnectTimeout="@ + decimal(secs as int)],
        None => seq![],
    }
}

/// The port arguments the handshake passes on, if a port was set.
pub open spec fn port_args(b: SessionBuilderView) -> Seq<Seq<char>> {
    match b.port {
        Some(port) => seq!["-p"@, decimal(port as int)],
        None => seq![],
    }
}

/// The user arguments the handshake passes on, if a user was set.
pub open spec fn user_args(b: SessionBuilderView) -> Seq<Seq<char>> {
    match b.user {
        Some(user) => seq!["-l"@, user],
        None => seq![],
    }
}

/// The key-file arguments the handshake passes on, if a key file was set.
pub open spec fn keyfile_args(b: SessionBuilderView) -> Seq<Seq<char>> {
    match b.keyfile {
        Some(k) => seq!["-i"@, k],
        None => seq![],
    }
}

/// The full command line of the handshake: open a multiplexed control
/// master on the rendezvous socket, background after authenticating, run
/// no remote command, persist the channel, disable interactive prompts,
/// apply the configured policy, timeout, port, user and key file, and
/// target the destination.
pub open spec fn handshake_args(b: SessionBuilderView, ctl_path: Seq<char>, destination: Seq<char>)
    -> Seq<Seq<char>> {
    seq![
        "ssh"@,
        "-S"@,
        ctl_path,
        "-M"@,
        "-f"@,
        "-N"@,
        "-o"@,
        "ControlPersist=yes"@,
        "-o"@,
        "BatchMode=yes"@,
        "-o"@,
        known_hosts_option(b.known_hosts_check),
    ] + timeout_args(b) + port_args(b) + user_args(b) + keyfile_args(b) + seq![destination]
}

impl SessionBuilder {
    /// The command line of the one-time authenticated handshake, exactly as
    /// [`handshake_args`] describes it.
    pub fn handshake_command(&self, ctl_path: &str, destination: &str) -> (r: Vec<String>)
        ensures
            r.deep_view() == handshake_args(self@, ctl_path@, destination@),
    {
        let mut v: Vec<String> = Vec::new();
        v.push("ssh".to_owned());
        v.push("-S".to_owned());
        v.push(ctl_path.to_owned());
        v.push("-M".to_owned());
        v.push("-f".to_owned());
        v.push("-N".to_owned());
        v.push("-o".to_owned());
        v.push("ControlPersist=yes".to_owned());
        v.push("-o".to_owned());
        v.push("BatchMode=yes".to_owned());
        v.push("-o".to_owned());
        v.push(self.known_hosts_check.as_option().to_owned());
        let ghost base = seq![
            "ssh"@,
            "-S"@,
            ctl_path@,
            "-M"@,
            "-f"@,
            "-N"@,
            "-o"@,
            "ControlPersist=yes"@,
            "-o"@,
            "BatchMode=yes"@,
            "-o"@,
            known_hosts_option(self.known_hosts_check),
        ];
        assert(v.deep_view() =~~= base);
        if let Some(secs) = &self.connect_timeout {
            v.push("-o".to_owned());
            let mut opt = "ConnectTimeout=".to_owned();
            let rendered = u64_to_string(*secs);
            opt.append(rendered.as_str());
            v.push(opt);
        }
        assert(v.deep_view() =~~= base + timeout_args(self@));
        if let Some(port) = &self.port {
            v.push("-p".to_owned());
            v.push(u64_to_string(*port as u64));
        }
        assert(v.deep_view() =~~= base + timeout_args(self@) + port_args(self@));
        if let Some(user) = &self.user {
            v.push("-l".to_owned());
            v.push(user.clone());
        }
        assert(v.deep_view() =~~= base + timeout_args(self@) + port_args(self@) + user_args(
            self@,
        ));
        if let Some(k) = &self.keyfile {
            v.push("-i".to_owned());
            v.push(k.clone());
        }
        assert(v.deep_view() =~~= base + timeout_args(self@) + port_args(self@) + user_args(self@)
            + keyfile_args(self@));
        v.push(destination.to_owned());
        assert(v.deep_view() =~~= handshake_args(self@, ctl_path@, destination@));
        v
    }

    /// A builder configured from a parsed destination: the given policy,
    /// and the destination's user and port where it has them.
    pub fn for_destination(d: &Destination, check: KnownHosts) -> (r: SessionBuilder)
        ensures
            r@ == (SessionBuilderView {
                user: d@.user,
                port: d@.port,
                keyfile: None,
                connect_timeout: None,
                known_hosts_check: check,
            }),
    {
        let mut b = SessionBuilder::default();
        b.known_hosts_check(check);
        if let Some(user) = &d.user {
            b.user(user.clone());
        }
        if let Some(port) = &d.port {
            b.port(*port);
        }
        b
    }
}

} // verus!
