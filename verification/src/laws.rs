//! The lifecycle and classifier guarantees, proved once and for all.

use vstd::prelude::*;

use crate::classify::classified_kind;
use crate::classify::cleaned_diagnostic;
use crate::classify::interpreted_error;
use crate::classify::strip_host_warning;
use crate::classify::strip_ssh_prefix;
use crate::errors::ErrorView;
use crate::errors::OsErrorView;
use crate::session::check_request_of;
use crate::session::command_request_of;
use crate::session::established;
use crate::session::mark_terminated_of;
use crate::session::take_master_of;
use crate::session::terminate_request_of;
use crate::session::SessionView;
use crate::text::find_from;
use crate::text::starts_with;
use crate::text::trimmed;

verus! {

/// Termination is idempotent. Once a session is marked terminated, a later
/// termination asks for no teardown command at all; and once the background
/// handle has been taken, every later taker comes away empty, so the handle
/// is never waited on or freed twice.
pub proof fn lemma_termination_idempotent(v: SessionView)
    ensures
        terminate_request_of(mark_terminated_of(v)) is None,
        !take_master_of(take_master_of(v).0).1,
{
}

/// A health check on a terminated session fails at once, with the
/// connection presumed severed, before any subprocess is asked for.
pub proof fn lemma_check_after_termination_fails(v: SessionView)
    requires
        v.terminated,
    ensures
        check_request_of(v) == Err::<Seq<Seq<char>>, ErrorView>(ErrorView::Disconnected),
{
}

/// No session comes out of a handshake whose bootstrap process exited
/// with failure: the reserved connection-error code yields the classified
/// diagnostic, and every other failure exit code a local-spawn error —
/// never an established session.
pub proof fn lemma_no_session_from_failed_handshake(
    destination: Seq<char>,
    ctl_dir: Seq<char>,
    diagnostic: Seq<char>,
)
    ensures
        established(destination, ctl_dir, Some(255i32), diagnostic) == Err::<
            SessionView,
            ErrorView,
        >(interpreted_error(diagnostic)),
        forall|c: i32|
            c != 0 ==> (#[trigger] established(destination, ctl_dir, Some(c), diagnostic)) is Err,
{
}

/// For every diagnostic that begins (after trimming and the transport-name
/// prefix) with the permanently-added-host warning, the warning line is
/// stripped before classification: the classified category is that of the
/// remainder after the first line break, and exactly that remainder is
/// preserved verbatim as the error's diagnostic payload.
pub proof fn lemma_warning_stripped_before_classification(raw: Seq<char>)
    requires
        starts_with(strip_ssh_prefix(trimmed(raw)), "Warning: Permanently added "@),
    ensures
        ({
            let warned = strip_ssh_prefix(trimmed(raw));
            let rest = match find_from(warned, "\r\n"@, 0) {
                Some(i) => warned.skip(i + "\r\n"@.len()),
                None => Seq::<char>::empty(),
            };
            interpreted_error(raw) == ErrorView::Connect(
                OsErrorView { kind: classified_kind(rest), message: rest },
            )
        }),
{
    assert(cleaned_diagnostic(raw) == strip_host_warning(strip_ssh_prefix(trimmed(raw))));
}

/// No command can be created through a terminated session: command
/// creation on it fails with the connection presumed severed, so every
/// call site reachable after a close is refused.
pub proof fn lemma_no_command_after_termination(v: SessionView, program: Seq<char>)
    requires
        v.terminated,
    ensures
        command_request_of(v, program) == Err::<Seq<Seq<char>>, ErrorView>(
            ErrorView::Disconnected,
        ),
{
}

} // verus!
