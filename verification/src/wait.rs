//! The wait gate: blocking retrieval tied to the producer's update cadence.
//!
//! The producer raises a cross-process notification whenever it finishes
//! writing a buffer.  The OS wait on that notification happens outside this
//! crate; what the OS hands back is a status code.  This module holds the
//! platform-neutral decisions: classifying the code into the closed outcome
//! set, whether the notification must be reset (so a later wait does not
//! return on a stale signal), and that an abandoned notification is a
//! permanent condition for the connection.

use vstd::prelude::*;
use crate::text::{dec_value, decimal_text, hex_text, hex_value, is_digits, is_hex_digits};

verus! {

/// Status code a wait returns when the notification was signaled.
pub const WAIT_SIGNALED: u32 = 0;

/// Status code a wait returns when the notification's owner terminated.
pub const WAIT_ABANDONED: u32 = 0x80;

/// Status code a wait returns when the timeout elapsed first.
pub const WAIT_TIMED_OUT: u32 = 0x102;

/// Status code a wait returns on a platform-level failure.
pub const WAIT_FAILED: u32 = 0xFFFF_FFFF;

/// An error raised when no telemetry sample could be retrieved from the
/// region.
#[derive(Debug, Clone, PartialEq, Eq)]
pub enum TelemetryError {
    /// The producer terminated; permanent for this connection.
    ABANDONED,
    /// The timeout elapsed before the producer signaled; carries the waited
    /// milliseconds.  Expected and normal; callers typically retry.
    TIMEOUT(usize),
    /// An unrecognized or platform-level wait code.
    UNKNOWN(u32),
}

impl TelemetryError {
    /// The error as human-readable text: the condition, with the waited
    /// milliseconds or the hexadecimal code where one is carried.
    pub fn describe(&self) -> (r: String)
        ensures
            match self {
                TelemetryError::ABANDONED => r@ == "Abandoned"@,
                TelemetryError::TIMEOUT(ms) => exists|d: Seq<char>|
                    is_digits(d) && dec_value(d) == *ms && r@ == "Timeout after "@ + d + "ms"@,
                TelemetryError::UNKNOWN(code) => exists|d: Seq<char>|
                    is_hex_digits(d) && hex_value(d) == *code && r@ == "Unknown error code = "@
                        + d,
            },
    {
        match self {
            TelemetryError::ABANDONED => String::from_str("Abandoned"),
            TelemetryError::TIMEOUT(ms) => {
                let digits = decimal_text(*ms as u64);
                let text = String::from_str("Timeout after ").concat(digits.as_str()).concat(
                    "ms",
                );
                proof {
                    assert(is_digits(digits@) && dec_value(digits@) == *ms && text@
                        == "Timeout after "@ + digits@ + "ms"@);
                }
                text
            },
            TelemetryError::UNKNOWN(code) => {
                let digits = hex_text(*code);
                let text = String::from_str("Unknown error code = ").concat(digits.as_str());
                proof {
                    assert(is_hex_digits(digits@) && hex_value(digits@) == *code && text@
                        == "Unknown error code = "@ + digits@);
                }
                text
            },
        }
    }
}

/// The outcome of one wait on the producer's notification.
#[derive(Debug, Clone, Copy, PartialEq, Eq, Structural)]
pub enum WaitOutcome {
    /// The producer finished writing a new buffer.
    Signaled,
    /// The timeout elapsed; carries the waited milliseconds.
    TimedOut(usize),
    /// The producer process terminated.
    Abandoned,
    /// A platform-level failure; carries the platform's error code.
    PlatformError(u32),
}

/// The outcome that a raw wait code stands for.  `os_error` is the
/// platform's last-error value, consulted only when the code reports a
/// failed wait; `timeout_ms` is the timeout the wait was given.
pub open spec fn spec_classify_wait(code: u32, timeout_ms: usize, os_error: u32) -> WaitOutcome {
    if code == WAIT_SIGNALED {
        WaitOutcome::Signaled
    } else if code == WAIT_TIMED_OUT {
        WaitOutcome::TimedOut(timeout_ms)
    } else if code == WAIT_ABANDONED {
        WaitOutcome::Abandoned
    } else if code == WAIT_FAILED {
        WaitOutcome::PlatformError(os_error)
    } else {
        WaitOutcome::PlatformError(code)
    }
}

/// Classify a raw wait code into the closed outcome set.
pub fn classify_wait(code: u32, timeout_ms: usize, os_error: u32) -> (r: WaitOutcome)
    ensures
        r == spec_classify_wait(code, timeout_ms, os_error),
{
    if code == WAIT_SIGNALED {
        WaitOutcome::Signaled
    } else if code == WAIT_TIMED_OUT {
        WaitOutcome::TimedOut(timeout_ms)
    } else if code == WAIT_ABANDONED {
        WaitOutcome::Abandoned
    } else if code == WAIT_FAILED {
        WaitOutcome::PlatformError(os_error)
    } else {
        WaitOutcome::PlatformError(code)
    }
}

/// The error a non-signaled outcome surfaces to the caller, `None` for a
/// successful wait.
pub fn outcome_error(outcome: WaitOutcome) -> (r: Option<TelemetryError>)
    ensures
        match outcome {
            WaitOutcome::Signaled => r is None,
            WaitOutcome::TimedOut(ms) => r == Some(TelemetryError::TIMEOUT(ms)),
            WaitOutcome::Abandoned => r == Some(TelemetryError::ABANDONED),
            WaitOutcome::PlatformError(code) => r == Some(TelemetryError::UNKNOWN(code)),
        },
{
    match outcome {
        WaitOutcome::Signaled => None,
        WaitOutcome::TimedOut(ms) => Some(TelemetryError::TIMEOUT(ms)),
        WaitOutcome::Abandoned => Some(TelemetryError::ABANDONED),
        WaitOutcome::PlatformError(code) => Some(TelemetryError::UNKNOWN(code)),
    }
}

/// The state machine of one connection's blocking gate.
///
/// A gate belongs to a single logical connection: each signal wakes at
/// most one blocked caller, so two callers blocking on one gate at once
/// need external mutual exclusion.
pub struct WaitGate {
    abandoned: bool,
}

impl WaitGate {
    /// The producer terminated while this gate waited; the condition is
    /// permanent and later waits must not touch the notification again.
    pub closed spec fn is_abandoned(&self) -> bool {
        self.abandoned
    }

    /// A gate that has not seen its producer terminate.
    pub fn new() -> (r: WaitGate)
        ensures
            !r.is_abandoned(),
    {
        WaitGate { abandoned: false }
    }

    /// Whether a wait may still be attempted on this gate.
    pub fn can_wait(&self) -> (r: bool)
        ensures
            r == !self.is_abandoned(),
    {
        !self.abandoned
    }

    /// Record the raw code one OS wait returned and decide what follows.
    ///
    /// Returns the classified outcome together with whether the caller must
    /// reset the notification — exactly on a signaled wait, so that a later
    /// wait does not return immediately on the stale signal.  After the
    /// producer terminates, every later attempt is turned away.
    pub fn on_wait_result(&mut self, code: u32, timeout_ms: usize, os_error: u32) -> (r: (
        WaitOutcome,
        bool,
    ))
        requires
            !old(self).is_abandoned(),
        ensures
            r.0 == spec_classify_wait(code, timeout_ms, os_error),
            r.1 == (r.0 is Signaled),
            final(self).is_abandoned() == (r.0 is Abandoned),
    {
        let outcome = classify_wait(code, timeout_ms, os_error);
        let reset = match outcome {
            WaitOutcome::Signaled => true,
            WaitOutcome::Abandoned => {
                self.abandoned = true;
                false
            },
            _ => false,
        };
        (outcome, reset)
    }
}

} // verus!
