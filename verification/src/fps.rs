//! Update-rate helper for blocking retrieval.
//!
//! The producer deposits data roughly every 16 ms, or 60 times per second.
//! An `Fps` names how often a caller wants to sample, between once per
//! second and every frame, and converts to the wait timeout that rate
//! implies.

use vstd::prelude::*;
use std::time::Duration;

verus! {

/// A sampling rate in frames per second, between 1 and 60.
#[derive(Debug, Clone, Copy, PartialEq, Eq, Structural)]
pub struct Fps(u8);

impl Fps {
    /// The most checks per second: every frame.
    pub fn max() -> (r: Fps)
        ensures
            r.spec_frames() == 60,
            r.wf(),
    {
        Fps(60)
    }

    /// The fewest checks per second: once a second.
    pub fn min() -> (r: Fps)
        ensures
            r.spec_frames() == 1,
            r.wf(),
    {
        Fps(1)
    }

    /// The rate in frames per second.
    pub closed spec fn spec_frames(&self) -> u8 {
        self.0
    }

    /// The rate lies in the supported band.
    pub open spec fn wf(&self) -> bool {
        1 <= self.spec_frames() <= 60
    }

    /// A rate of `value` frames per second; the caller checks the band
    /// first, since a rate outside it has no meaning here.
    pub fn new(value: u8) -> (r: Fps)
        requires
            1 <= value <= 60,
        ensures
            r.spec_frames() == value,
            r.wf(),
    {
        Fps(value)
    }

    /// The rate in frames per second.
    pub fn frames(&self) -> (r: u8)
        ensures
            r == self.spec_frames(),
    {
        self.0
    }

    /// The wait timeout this rate implies, in whole milliseconds.
    pub fn to_millis(&self) -> (r: u64)
        requires
            self.wf(),
        ensures
            r == 1000 as int / self.spec_frames() as int,
    {
        1000 / (self.0 as u64)
    }

    /// The wait timeout this rate implies.
    pub fn to_duration(&self) -> Duration
        requires
            self.wf(),
    {
        let ms = self.to_millis();
        duration_from_millis(ms)
    }
}

/// Relies on std's `Duration::from_millis` to build the duration value.
#[verifier::external_body]
fn duration_from_millis(ms: u64) -> Duration {
    Duration::from_millis(ms)
}

} // verus!
