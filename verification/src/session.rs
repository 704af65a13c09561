//! The session lifecycle: one authenticated, multiplexed connection.
//!
//! A session owns, by way of the unverified shell around this library, a
//! private control directory holding the rendezvous socket and the handle
//! of the backgrounded transport process. The library tracks that state
//! as plain values — the destination, the control directory's path, a
//! termination flag, and whether the background handle is still held —
//! and decides every step: which command line to run, whether an
//! operation is still allowed, and what each observed outcome means. The
//! shell performs the subprocess work and feeds the outcomes back in.
//!
//! Termination is idempotent: once a session is marked terminated, no
//! further teardown command is issued, and the background handle can be
//! taken at most once across the session's life.

use vstd::prelude::*;
use vstd::string::StringExecFns;

use crate::classify::interpret_ssh_error;
use crate::classify::interpreted_error;
use crate::errors::Error;
use crate::errors::ErrorKind;
use crate::errors::ErrorView;
use crate::errors::OsError;
use crate::errors::OsErrorView;
use crate::text::trim;
use crate::text::trimmed;

verus! {

/// One SSH session to a remote host, as the library models it.
#[derive(Debug)]
pub struct Session {
    addr: String,
    ctl_dir: String,
    terminated: bool,
    master_held: bool,
}

/// Mathematical model of a [`Session`].
pub struct SessionView {
    /// The destination the session was established to.
    pub addr: Seq<char>,
    /// The path of the private directory holding the rendezvous socket.
    pub ctl_dir: Seq<char>,
    /// Whether the channel-exit sub-command has been issued (or the
    /// session otherwise given up): once set, it never clears.
    pub terminated: bool,
    /// Whether the background transport process's handle is still held;
    /// it can be taken at most once.
    pub master_held: bool,
}

impl View for Session {
    type V = SessionView;

    closed spec fn view(&self) -> SessionView {
        SessionView {
            addr: self.addr@,
            ctl_dir: self.ctl_dir@,
            terminated: self.terminated,
            master_held: self.master_held,
        }
    }
}

/// The rendezvous socket's path: `master` inside the control directory.
pub open spec fn ctl_path_of(v: SessionView) -> Seq<char> {
    v.ctl_dir + "/master"@
}

/// The command line of a health check against the rendezvous socket.
pub open spec fn check_args(v: SessionView) -> Seq<Seq<char>> {
    seq![
        "ssh"@,
        "-S"@,
        ctl_path_of(v),
        "-o"@,
        "BatchMode=yes"@,
        "-O"@,
        "check"@,
        v.addr,
    ]
}

/// The command line that tells the control master to exit.
pub open spec fn exit_args(v: SessionView) -> Seq<Seq<char>> {
    seq![
        "ssh"@,
        "-S"@,
        ctl_path_of(v),
        "-o"@,
        "BatchMode=yes"@,
        "-O"@,
        "exit"@,
        v.addr,
    ]
}

/// The command line that runs `program` through the rendezvous socket.
/// The discard port `9` guarantees that a client whose control channel is
/// gone fails fast instead of opening a fresh unmultiplexed connection.
pub open spec fn command_args(v: SessionView, program: Seq<char>) -> Seq<Seq<char>> {
    seq![
        "ssh"@,
        "-S"@,
        ctl_path_of(v),
        "-T"@,
        "-o"@,
        "BatchMode=yes"@,
        "-p"@,
        "9"@,
        v.addr,
        "--"@,
        program,
    ]
}

/// What concluding the handshake yields: the reserved connection-error
/// code turns the captured diagnostic into a classified
/// connection-establishment error; any other failure exit code is a
/// local-spawn error carrying the diagnostic verbatim; only a bootstrap
/// that exited successfully (or was ended by a signal, reporting no code)
/// establishes a session.
pub open spec fn established(
    destination: Seq<char>,
    ctl_dir: Seq<char>,
    exit_code: Option<i32>,
    diagnostic: Seq<char>,
) -> Result<SessionView, ErrorView> {
    match exit_code {
        Some(c) => if c == 255 {
            Err(interpreted_error(diagnostic))
        } else if c != 0 {
            Err(ErrorView::Ssh(OsErrorView { kind: ErrorKind::Other, message: diagnostic }))
        } else {
            Ok(
                SessionView {
                    addr: destination,
                    ctl_dir: ctl_dir,
                    terminated: false,
                    master_held: true,
                },
            )
        },
        None => Ok(
            SessionView {
                addr: destination,
                ctl_dir: ctl_dir,
                terminated: false,
                master_held: true,
            },
        ),
    }
}

/// What a health check asks for: nothing on a terminated session — it
/// fails at once with the connection presumed severed — and the check
/// command line otherwise.
pub open spec fn check_request_of(v: SessionView) -> Result<Seq<Seq<char>>, ErrorView> {
    if v.terminated {
        Err(ErrorView::Disconnected)
    } else {
        Ok(check_args(v))
    }
}

/// What command creation yields: on a terminated session no command may
/// be started — it fails with the connection presumed severed — and
/// otherwise the transport client's command line.
pub open spec fn command_request_of(v: SessionView, program: Seq<char>) -> Result<
    Seq<Seq<char>>,
    ErrorView,
> {
    if v.terminated {
        Err(ErrorView::Disconnected)
    } else {
        Ok(command_args(v, program))
    }
}

/// Taking the background handle: the slot empties, and only the first
/// taker receives it.
pub open spec fn take_master_of(v: SessionView) -> (SessionView, bool) {
    (SessionView { master_held: false, ..v }, v.master_held)
}

/// What termination asks for: nothing on a terminated session (a repeated
/// termination is a successful no-op), and the exit command line otherwise.
pub open spec fn terminate_request_of(v: SessionView) -> Option<Seq<Seq<char>>> {
    if v.terminated {
        None
    } else {
        Some(exit_args(v))
    }
}

/// The session with its termination flag set.
pub open spec fn mark_terminated_of(v: SessionView) -> SessionView {
    SessionView { terminated: true, ..v }
}

/// What was observed of the background transport process after taking
/// (or failing to take) its handle.
#[derive(Debug)]
pub enum MasterObservation {
    /// The handle had already been taken by an earlier caller.
    Unavailable,
    /// The process had exited cleanly: the remote end simply closed the
    /// connection on its own.
    ExitedCleanly,
    /// The process had exited with failure, and reading its captured
    /// error stream then failed locally.
    ReadFailed(OsError),
    /// The process had exited with failure, with this captured error text.
    Diagnostic(String),
}

/// Mathematical model of a [`MasterObservation`].
pub enum MasterObservationView {
    /// The handle had already been taken.
    Unavailable,
    /// The process had exited cleanly.
    ExitedCleanly,
    /// Reading the captured error stream failed.
    ReadFailed(OsErrorView),
    /// The captured error text.
    Diagnostic(Seq<char>),
}

impl View for MasterObservation {
    type V = MasterObservationView;

    open spec fn view(&self) -> MasterObservationView {
        match self {
            MasterObservation::Unavailable => MasterObservationView::Unavailable,
            MasterObservation::ExitedCleanly => MasterObservationView::ExitedCleanly,
            MasterObservation::ReadFailed(e) => MasterObservationView::ReadFailed(e@),
            MasterObservation::Diagnostic(s) => MasterObservationView::Diagnostic(s@),
        }
    }
}

/// The most specific error the background process yields: none when its
/// handle was gone or it exited cleanly, the read failure when its error
/// stream could not be read, and otherwise its trimmed error text as a
/// background-process failure.
pub open spec fn master_verdict_of(obs: MasterObservationView) -> Option<ErrorView> {
    match obs {
        MasterObservationView::Unavailable => None,
        MasterObservationView::ExitedCleanly => None,
        MasterObservationView::ReadFailed(e) => Some(ErrorView::Master(e)),
        MasterObservationView::Diagnostic(s) => Some(
            ErrorView::Master(OsErrorView { kind: ErrorKind::Other, message: trimmed(s) }),
        ),
    }
}

/// What a health check concludes: success unless the check sub-command
/// reported the reserved connection-error code; then the background
/// process's own error when it produced one, and the connection presumed
/// severed when it did not.
pub open spec fn check_verdict_of(code_is_255: bool, master_error: Option<ErrorView>) -> Result<
    (),
    ErrorView,
> {
    if !code_is_255 {
        Ok(())
    } else {
        match master_error {
            Some(e) => Err(e),
            None => Err(ErrorView::Disconnected),
        }
    }
}

/// What termination concludes once the exit sub-command ran: success when
/// it succeeded; otherwise the background process's own error when it
/// produced one, and success when it did not — an exit command that failed
/// because the remote end had already closed the connection is a benign
/// outcome of a requested close.
pub open spec fn terminate_verdict_of(exit_success: bool, master_error: Option<ErrorView>)
    -> Result<(), ErrorView> {
    if exit_success {
        Ok(())
    } else {
        match master_error {
            Some(e) => Err(e),
            None => Ok(()),
        }
    }
}

impl Session {
    /// Conclude the handshake, exactly as [`established`] describes: a
    /// session is constructed only when the bootstrap process exited
    /// successfully or reported no code; the reserved connection-error
    /// code yields the classified diagnostic, and any other failure exit
    /// code a local-spawn error — never a session.
    pub fn establish(
        destination: &str,
        ctl_dir: String,
        exit_code: Option<i32>,
        diagnostic: &str,
    ) -> (r: Result<Session, Error>)
        ensures
            match r {
                Ok(s) => established(destination@, ctl_dir@, exit_code, diagnostic@)
                    == Ok::<SessionView, ErrorView>(s@),
                Err(e) => established(destination@, ctl_dir@, exit_code, diagnostic@)
                    == Err::<SessionView, ErrorView>(e@),
            },
    {
        match exit_code {
            Some(c) => {
                if c == 255 {
                    Err(interpret_ssh_error(diagnostic))
                } else if c != 0 {
                    Err(Error::Ssh(OsError::new(ErrorKind::Other, diagnostic.to_owned())))
                } else {
                    Ok(
                        Session {
                            addr: destination.to_owned(),
                            ctl_dir,
                            terminated: false,
                            master_held: true,
                        },
                    )
                }
            },
            None => Ok(
                Session {
                    addr: destination.to_owned(),
                    ctl_dir,
                    terminated: false,
                    master_held: true,
                },
            ),
        }
    }

    /// The rendezvous socket's path, as [`ctl_path_of`] describes it.
    pub fn ctl_path(&self) -> (r: String)
        ensures
            r@ == ctl_path_of(self@),
    {
        let mut p = self.ctl_dir.clone();
        p.append("/master");
        p
    }

    /// Whether the session has been terminated.
    pub fn is_terminated(&self) -> (r: bool)
        ensures
            r == self@.terminated,
    {
        self.terminated
    }

    /// Ask for a health check, as [`check_request_of`] describes: on a
    /// terminated session it fails at once with the connection presumed
    /// severed; otherwise it yields the check command line to run.
    pub fn check_request(&self) -> (r: Result<Vec<String>, Error>)
        ensures
            match r {
                Ok(v) => check_request_of(self@) == Ok::<Seq<Seq<char>>, ErrorView>(v.deep_view()),
                Err(e) => check_request_of(self@) == Err::<Seq<Seq<char>>, ErrorView>(e@),
            },
    {
        if self.terminated {
            Err(Error::Disconnected)
        } else {
            let v = self.fixed_args("-O", "check");
            assert(v.deep_view() =~~= check_args(self@));
            Ok(v)
        }
    }

    /// Take the background process's handle: the first taker wins, and a
    /// later taker observes it already gone, as [`take_master_of`] says.
    pub fn take_master(&mut self) -> (took: bool)
        ensures
            final(self)@ == take_master_of(old(self)@).0,
            took == take_master_of(old(self)@).1,
    {
        let took = self.master_held;
        self.master_held = false;
        took
    }

    /// Ask for termination, as [`terminate_request_of`] describes: on a
    /// session already terminated there is nothing to run — the repeated
    /// termination is a successful no-op — and otherwise the exit command
    /// line is yielded.
    pub fn terminate_request(&self) -> (r: Option<Vec<String>>)
        ensures
            match r {
                Some(v) => terminate_request_of(self@) == Some(v.deep_view()),
                None => terminate_request_of(self@) is None,
            },
    {
        if self.terminated {
            None
        } else {
            let v = self.fixed_args("-O", "exit");
            assert(v.deep_view() =~~= exit_args(self@));
            Some(v)
        }
    }

    /// Mark the session terminated, unconditionally, so that no later
    /// call re-attempts the exit sub-command.
    pub fn mark_terminated(&mut self)
        ensures
            final(self)@ == mark_terminated_of(old(self)@),
    {
        self.terminated = true;
    }

    /// Build the command line that runs `program` on the remote host
    /// through the rendezvous socket, as [`command_args`] describes. On a
    /// terminated session no command may be started: the call fails with
    /// the connection presumed severed.
    pub fn command(&self, program: &str) -> (r: Result<Command, Error>)
        ensures
            match r {
                Ok(c) => command_request_of(self@, program@) == Ok::<Seq<Seq<char>>, ErrorView>(
                    c@,
                ),
                Err(e) => command_request_of(self@, program@) == Err::<Seq<Seq<char>>, ErrorView>(
                    e@,
                ),
            },
    {
        if self.terminated {
            return Err(Error::Disconnected);
        }
        let mut v: Vec<String> = Vec::new();
        v.push("ssh".to_owned());
        v.push("-S".to_owned());
        v.push(self.ctl_path());
        v.push("-T".to_owned());
        v.push("-o".to_owned());
        v.push("BatchMode=yes".to_owned());
        v.push("-p".to_owned());
        v.push("9".to_owned());
        v.push(self.addr.clone());
        v.push("--".to_owned());
        v.push(program.to_owned());
        assert(v.deep_view() =~~= command_args(self@, program@));
        Ok(Command { args: v })
    }

    /// The shared shape of the check and exit command lines.
    fn fixed_args(&self, flag: &str, op: &str) -> (r: Vec<String>)
        ensures
            r.deep_view() =~~= seq![
                "ssh"@,
                "-S"@,
                ctl_path_of(self@),
                "-o"@,
                "BatchMode=yes"@,
                flag@,
                op@,
                self@.addr,
            ],
    {
        let mut v: Vec<String> = Vec::new();
        v.push("ssh".to_owned());
        v.push("-S".to_owned());
        v.push(self.ctl_path());
        v.push("-o".to_owned());
        v.push("BatchMode=yes".to_owned());
        v.push(flag.to_owned());
        v.push(op.to_owned());
        v.push(self.addr.clone());
        v
    }
}

/// The most specific error the background process yields, exactly as
/// [`master_verdict_of`] describes.
pub fn master_verdict(obs: MasterObservation) -> (r: Option<Error>)
    ensures
        match r {
            Some(e) => master_verdict_of(obs@) == Some(e@),
            None => master_verdict_of(obs@) is None,
        },
{
    match obs {
        MasterObservation::Unavailable => None,
        MasterObservation::ExitedCleanly => None,
        MasterObservation::ReadFailed(e) => Some(Error::Master(e)),
        MasterObservation::Diagnostic(s) => {
            let t = trim(s.as_str()).to_owned();
            Some(Error::Master(OsError::new(ErrorKind::Other, t)))
        },
    }
}

/// Conclude a health check, exactly as [`check_verdict_of`] describes.
pub fn check_verdict(code_is_255: bool, master_error: Option<Error>) -> (r: Result<(), Error>)
    ensures
        match r {
            Ok(u) => check_verdict_of(
                code_is_255,
                match master_error {
                    Some(e) => Some(e@),
                    None => None,
                },
            ) is Ok,
            Err(e) => check_verdict_of(
                code_is_255,
                match master_error {
                    Some(me) => Some(me@),
                    None => None,
                },
            ) == Err::<(), ErrorView>(e@),
        },
{
    if !code_is_255 {
        Ok(())
    } else {
        match master_error {
            Some(e) => Err(e),
            None => Err(Error::Disconnected),
        }
    }
}

/// Conclude a termination, exactly as [`terminate_verdict_of`] describes.
pub fn terminate_verdict(exit_success: bool, master_error: Option<Error>) -> (r: Result<(), Error>)
    ensures
        match r {
            Ok(u) => terminate_verdict_of(
                exit_success,
                match master_error {
                    Some(e) => Some(e@),
                    None => None,
                },
            ) is Ok,
            Err(e) => terminate_verdict_of(
                exit_success,
                match master_error {
                    Some(me) => Some(me@),
                    None => None,
                },
            ) == Err::<(), ErrorView>(e@),
        },
{
    if exit_success {
        Ok(())
    } else {
        match master_error {
            Some(e) => Err(e),
            None => Ok(()),
        }
    }
}

/// A remote command invocation, ready to be run: the full command line of
/// the transport client that attaches to the rendezvous socket.
#[derive(Debug)]
pub struct Command {
    args: Vec<String>,
}

impl View for Command {
    type V = Seq<Seq<char>>;

    closed spec fn view(&self) -> Seq<Seq<char>> {
        self.args.deep_view()
    }
}

impl Command {
    /// The command line, for the shell that spawns it.
    pub fn into_args(self) -> (r: Vec<String>)
        ensures
            r.deep_view() == self@,
    {
        self.args
    }

    /// A look at the command line.
    pub fn args(&self) -> (r: &Vec<String>)
        ensures
            r.deep_view() == self@,
    {
        &self.args
    }
}

} // verus!
