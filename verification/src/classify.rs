//! Classification of the transport's free-form diagnostic text into a
//! structured error.
//!
//! The external remote-login client reports connection failures only through
//! its exit code and free-form text on its error stream. The classifier maps
//! that text to a coarse [`ErrorKind`], heuristically: it strips the
//! transport-name prefix and a possible "permanently added to known hosts"
//! warning line, splits the remainder into a phase and a detail at the first
//! `": "`, and matches a handful of known phrasings. Unmatched text degrades
//! to the default category; the (warning-stripped) text is kept verbatim as
//! the error's diagnostic payload.

use vstd::prelude::*;
use vstd::string::StrSliceExecFns;

use crate::errors::Error;
use crate::errors::ErrorKind;
use crate::errors::ErrorView;
use crate::errors::OsError;
use crate::errors::OsErrorView;
use crate::text::contains_seq;
use crate::text::contains_substring;
use crate::text::find_from;
use crate::text::find_substring;
use crate::text::lemma_find_from_some;
use crate::text::starts_with;
use crate::text::starts_with_str;
use crate::text::str_eq;
use crate::text::trim;
use crate::text::trimmed;

verus! {

/// `s` without a leading `"ssh: "` transport-name prefix.
pub open spec fn strip_ssh_prefix(s: Seq<char>) -> Seq<char> {
    if starts_with(s, "ssh: "@) {
        s.skip("ssh: "@.len() as int)
    } else {
        s
    }
}

/// `s` without a leading "permanently added to known hosts" warning line:
/// when the warning is present, everything up to and including the first
/// `"\r\n"` goes, and a warning with no line break leaves nothing.
pub open spec fn strip_host_warning(s: Seq<char>) -> Seq<char> {
    if starts_with(s, "Warning: Permanently added "@) {
        match find_from(s, "\r\n"@, 0) {
            Some(i) => s.skip(i + "\r\n"@.len()),
            None => Seq::empty(),
        }
    } else {
        s
    }
}

/// The diagnostic text as the classifier sees it: trimmed, without the
/// transport-name prefix, without the known-hosts warning line.
pub open spec fn cleaned_diagnostic(raw: Seq<char>) -> Seq<char> {
    strip_host_warning(strip_ssh_prefix(trimmed(raw)))
}

/// The phase part of a cleaned diagnostic: what stands before the first
/// `": "`, or all of it when no `": "` occurs.
pub open spec fn phase_of(s: Seq<char>) -> Seq<char> {
    match find_from(s, ": "@, 0) {
        Some(i) => s.take(i),
        None => s,
    }
}

/// The detail part of a cleaned diagnostic: what stands after the first
/// `": "`, when one occurs.
pub open spec fn detail_of(s: Seq<char>) -> Option<Seq<char>> {
    match find_from(s, ": "@, 0) {
        Some(i) => Some(s.skip(i + ": "@.len())),
        None => None,
    }
}

/// The category a cleaned diagnostic falls under.
///
/// The default is `ConnectionAborted`. A phase starting with
/// `"Could not resolve"` means name resolution failed, an unclassified
/// failure. A detail of `"Network is unreachable"` is likewise unclassified,
/// `"Connection refused"` is a refusal, and a detail containing
/// `"Permission denied ("` is a denial — unless the phase starts with
/// `"connect to host"`, one platform's phrasing of an unreachable network,
/// which is kept as an unclassified failure.
pub open spec fn classified_kind(s: Seq<char>) -> ErrorKind {
    let base = if starts_with(phase_of(s), "Could not resolve"@) {
        ErrorKind::Other
    } else {
        ErrorKind::ConnectionAborted
    };
    match detail_of(s) {
        None => base,
        Some(d) => if d == "Network is unreachable"@ {
            ErrorKind::Other
        } else if d == "Connection refused"@ {
            ErrorKind::ConnectionRefused
        } else if contains_seq(d, "Permission denied ("@) {
            if starts_with(phase_of(s), "connect to host"@) {
                ErrorKind::Other
            } else {
                ErrorKind::PermissionDenied
            }
        } else {
            base
        },
    }
}

/// What interpreting a raw diagnostic yields: a connection-establishment
/// error carrying the classified category and the cleaned text verbatim.
pub open spec fn interpreted_error(raw: Seq<char>) -> ErrorView {
    ErrorView::Connect(
        OsErrorView {
            kind: classified_kind(cleaned_diagnostic(raw)),
            message: cleaned_diagnostic(raw),
        },
    )
}

/// Turn the transport's free-form error text into a structured [`Error`],
/// exactly as [`interpreted_error`] describes.
pub fn interpret_ssh_error(stderr: &str) -> (r: Error)
    ensures
        r@ == interpreted_error(stderr@),
{
    let t = trim(stderr);
    let t = if starts_with_str(t, "ssh: ") {
        let tn = t.unicode_len();
        let cut = "ssh: ".unicode_len();
        let r = t.substring_char(cut, tn);
        assert(r@ =~= strip_ssh_prefix(trimmed(stderr@)));
        r
    } else {
        t
    };
    let msg: &str = if starts_with_str(t, "Warning: Permanently added ") {
        match find_substring(t, "\r\n") {
            Some(i) => {
                let tn = t.unicode_len();
                let cut = "\r\n".unicode_len();
                proof {
                    reveal_strlit("\r\n");
                    lemma_find_from_some(t@, "\r\n"@, 0, i as int);
                }
                let r = t.substring_char(i + cut, tn);
                assert(r@ =~= cleaned_diagnostic(stderr@));
                r
            },
            None => {
                let r = "";
                proof {
                    reveal_strlit("");
                    assert(r@ =~= cleaned_diagnostic(stderr@));
                }
                r
            },
        }
    } else {
        t
    };
    let ghost m = cleaned_diagnostic(stderr@);
    assert(msg@ == m);
    let mut kind = ErrorKind::ConnectionAborted;
    match find_substring(msg, ": ") {
        None => {
            if starts_with_str(msg, "Could not resolve") {
                kind = ErrorKind::Other;
            }
        },
        Some(i) => {
            let mn = msg.unicode_len();
            let cut = ": ".unicode_len();
            proof {
                reveal_strlit(": ");
                lemma_find_from_some(msg@, ": "@, 0, i as int);
            }
            let phase = msg.substring_char(0, i);
            let detail = msg.substring_char(i + cut, mn);
            assert(phase@ =~= phase_of(m));
            assert(detail@ =~= m.skip(i + ": "@.len()));
            assert(detail_of(m) == Some(detail@));
            if starts_with_str(phase, "Could not resolve") {
                kind = ErrorKind::Other;
            }
            if str_eq(detail, "Network is unreachable") {
                kind = ErrorKind::Other;
            } else if str_eq(detail, "Connection refused") {
                kind = ErrorKind::ConnectionRefused;
            } else if contains_substring(detail, "Permission denied (") {
                if starts_with_str(phase, "connect to host") {
                    kind = ErrorKind::Other;
                } else {
                    kind = ErrorKind::PermissionDenied;
                }
            }
        },
    }
    assert(kind == classified_kind(m));
    let message = msg.to_owned();
    let r = Error::Connect(OsError::new(kind, message));
    assert(r@ == interpreted_error(stderr@));
    r
}

} // verus!
