//! Scriptable SSH session management through an external `ssh` client.
//!
//! The library models one authenticated, multiplexed SSH connection: a
//! background `ssh` control-master process listens on a rendezvous socket
//! inside a private directory, and every later command invocation attaches
//! to that socket instead of re-authenticating.
//!
//! The library itself performs no I/O. It decides: it classifies the
//! transport's free-form diagnostic text into structured errors, parses
//! destination strings, computes the exact argument vectors for every
//! transport invocation, and tracks the session lifecycle (established,
//! terminated, background handle taken) so that teardown happens at most
//! once. A thin unverified shell spawns the processes, owns the temporary
//! directory, and feeds the observed outcomes back into these functions.

pub mod builder;
pub mod classify;
pub mod destination;
pub mod errors;
pub mod laws;
pub mod session;
pub mod text;

pub use builder::KnownHosts;
pub use builder::SessionBuilder;
pub use classify::interpret_ssh_error;
pub use destination::Destination;
pub use errors::Error;
pub use errors::ErrorKind;
pub use errors::OsError;
pub use session::Command;
pub use session::MasterObservation;
pub use session::Session;
