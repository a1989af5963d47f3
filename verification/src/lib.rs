//! A test harness for targeting one of several ledger execution backends:
//! an ephemeral local sandbox node or a shared remote network.
//!
//! The core is a context-switching mechanism: a scope binds a unit of work
//! to one backend descriptor, and every helper called inside that scope
//! resolves the same descriptor; plus a submission layer that retries
//! transactions through backend timeouts.

use vstd::prelude::*;

pub mod account;
pub mod codec;
pub mod context;
pub mod rpc;
pub mod runtime;
pub mod strutil;

verus! {

/// The ways an operation of this library can fail.
#[derive(Clone, Copy, Debug, PartialEq, Eq, Structural)]
pub enum Error {
    /// The user's home directory could not be resolved.
    MissingHomeDir,
    /// A scope was requested for a backend name that is not recognized.
    UnknownRuntime,
    /// A generated or supplied account identifier is not syntactically valid.
    InvalidAccountId,
    /// A state entry held a string that is not valid base64.
    InvalidBase64,
    /// A decoded state key is not valid UTF-8.
    InvalidUtf8,
    /// A query response did not carry the requested access key.
    AccessKeyMissing,
}

} // verus!
