//! Parsing of destination strings.
//!
//! A destination is accepted as `[user@]host` or as a URI of the form
//! `ssh://[user@]host[:port]`. The URI form is not understood by every
//! version of the transport, so it is always translated into separate
//! user, host and port values: the scheme is stripped, the user is split
//! off at the last `@`, and — in the URI form — a numeric port is split
//! off at the last `:`. A trailing `:`-part that is not a valid port
//! leaves the remainder untouched, so that such a string still reaches
//! the transport as an opaque destination.

use vstd::prelude::*;
use vstd::string::StrSliceExecFns;

use crate::text::parse_port;
use crate::text::parsed_port;
use crate::text::rfind_char;
use crate::text::rfind_char_in;
use crate::text::starts_with;
use crate::text::starts_with_str;

verus! {

/// A destination split into its parts.
#[derive(Debug)]
pub struct Destination {
    /// The user to log in as, when one was given.
    pub user: Option<String>,
    /// The host, or whatever of the destination was not parsed away.
    pub host: String,
    /// The port to connect on, when the URI form gave a valid one.
    pub port: Option<u16>,
}

/// Mathematical model of a [`Destination`].
pub struct DestinationView {
    /// The user to log in as.
    pub user: Option<Seq<char>>,
    /// The host.
    pub host: Seq<char>,
    /// The port to connect on.
    pub port: Option<u16>,
}

impl View for Destination {
    type V = DestinationView;

    open spec fn view(&self) -> DestinationView {
        DestinationView {
            user: match self.user {
                Some(ref u) => Some(u@),
                None => None,
            },
            host: self.host@,
            port: self.port,
        }
    }
}

/// `s` without a leading `"ssh://"` scheme.
pub open spec fn scheme_stripped(s: Seq<char>) -> Seq<char> {
    if starts_with(s, "ssh://"@) {
        s.skip("ssh://"@.len() as int)
    } else {
        s
    }
}

/// The user part before the last `@`, and what remains after it.
pub open spec fn split_user(s: Seq<char>) -> (Option<Seq<char>>, Seq<char>) {
    match rfind_char_in(s, '@') {
        Some(i) => (Some(s.take(i)), s.skip(i + 1)),
        None => (None, s),
    }
}

/// The host before the last `:` and the port after it, when what follows
/// the last `:` is a valid port; otherwise `s` whole and no port.
pub open spec fn split_port(s: Seq<char>) -> (Seq<char>, Option<u16>) {
    match rfind_char_in(s, ':') {
        Some(i) => match parsed_port(s.skip(i + 1)) {
            Some(p) => (s.take(i), Some(p)),
            None => (s, None),
        },
        None => (s, None),
    }
}

/// What parsing a destination yields: the scheme goes, the user is split
/// off, and in the URI form a valid numeric port is split off too.
pub open spec fn parsed_destination(s: Seq<char>) -> DestinationView {
    let had_scheme = starts_with(s, "ssh://"@);
    let body = scheme_stripped(s);
    let user = split_user(body).0;
    let rest = split_user(body).1;
    let host = if had_scheme {
        split_port(rest).0
    } else {
        rest
    };
    let port = if had_scheme {
        split_port(rest).1
    } else {
        None
    };
    DestinationView { user, host, port }
}

/// A found character occurrence lies within `s`.
proof fn lemma_rfind_char_some(s: Seq<char>, c: char, i: int)
    requires
        rfind_char_in(s, c) == Some(i),
    ensures
        0 <= i < s.len(),
        s[i] == c,
    decreases s.len(),
{
    if s.len() == 0 {
    } else if s[s.len() - 1] == c {
    } else {
        lemma_rfind_char_some(s.drop_last(), c, i);
        assert(s.drop_last()[i] == s[i]);
    }
}

/// Parse a destination string, exactly as [`parsed_destination`] describes.
pub fn parse_destination(s: &str) -> (d: Destination)
    ensures
        d@ == parsed_destination(s@),
{
    let body: &str = if starts_with_str(s, "ssh://") {
        let n = s.unicode_len();
        let cut = "ssh://".unicode_len();
        let r = s.substring_char(cut, n);
        assert(r@ =~= scheme_stripped(s@));
        r
    } else {
        s
    };
    let had_scheme = starts_with_str(s, "ssh://");
    let bn = body.unicode_len();
    let (user, rest): (Option<String>, &str) = match rfind_char(body, '@') {
        Some(i) => {
            proof {
                lemma_rfind_char_some(body@, '@', i as int);
            }
            let u = body.substring_char(0, i);
            let r = body.substring_char(i + 1, bn);
            assert(u@ =~= body@.take(i as int));
            assert(r@ =~= body@.skip(i + 1));
            (Some(u.to_owned()), r)
        },
        None => (None, body),
    };
    let rn = rest.unicode_len();
    let (host, port): (&str, Option<u16>) = if had_scheme {
        match rfind_char(rest, ':') {
            Some(i) => {
                proof {
                    lemma_rfind_char_some(rest@, ':', i as int);
                }
                let tail = rest.substring_char(i + 1, rn);
                assert(tail@ =~= rest@.skip(i + 1));
                match parse_port(tail) {
                    Some(p) => {
                        let h = rest.substring_char(0, i);
                        assert(h@ =~= rest@.take(i as int));
                        (h, Some(p))
                    },
                    None => (rest, None),
                }
            },
            None => (rest, None),
        }
    } else {
        (rest, None)
    };
    Destination { user, host: host.to_owned(), port }
}

} // verus!
