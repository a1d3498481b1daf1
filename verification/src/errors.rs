//! The error kinds a command run can end with.

use vstd::prelude::*;

verus! {

/// Why a command run failed. Every remote failure carries the text the
/// remote layer reported, so the caller can print it once and move on; no
/// kind triggers a retry.
#[derive(Debug, PartialEq, Eq)]
pub enum IClassError {
    /// The time-of-day text is malformed or its hour or minute is out of
    /// range.
    InvalidTime,
    /// The authentication handshake or the identity resolution failed.
    Auth { message: String },
    /// A remote course or schedule listing failed.
    Query { message: String },
    /// The schedule list for the course was empty when the deadline
    /// arrived, so there was nothing to check in to.
    NoScheduleAtDeadline,
    /// The remote check-in call was rejected.
    Checkin { message: String },
}

} // verus!
