//! The error kinds the core surfaces to its callers.

use vstd::prelude::*;

verus! {

/// Every failure the port and batch layer can report.
///
/// * `FailedToInitializePort` — the driver rejected a port open.
/// * `BadQueue` — a receive or send was given a queue index outside the
///   declared queue range.
/// * `BadVdev` — a virtual-device name was malformed or had an unknown
///   prefix.
/// * `SendFailure` / `RecvFailure` — the driver reported a failure during
///   a send or receive burst.
#[derive(Debug, Clone, Copy, PartialEq, Eq, Structural)]
pub enum ZCSIError {
    FailedToInitializePort,
    BadQueue,
    BadVdev,
    SendFailure,
    RecvFailure,
}

} // verus!
