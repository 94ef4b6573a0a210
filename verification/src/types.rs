use vstd::prelude::*;
use crate::animation_error::AnimationError;
use crate::animation_error::AnimationFrameError;
use crate::animation_error::NotFoundError;
use crate::animation_frames::AnimationFrames;

verus! {

/// Index of a frame (a cell) in a grid atlas, counted row by row.
pub type AnimationIndex = usize;

pub type AnimationFrameResult = Result<AnimationFrames, AnimationFrameError>;

pub type AnimationResult<T> = Result<T, AnimationError>;

pub type KeyLookUpResult<T> = Result<T, NotFoundError>;

/// Nanoseconds in one second.
pub const NANOS_PER_SEC: u64 = 1_000_000_000;

/// Nanoseconds in one millisecond.
pub const NANOS_PER_MILLI: u64 = 1_000_000;

/// A span of time, held as a whole number of nanoseconds.
#[derive(Clone, Copy, Debug, PartialEq, Eq, Structural)]
pub struct AnimationDuration {
    pub nanos: u64,
}

impl AnimationDuration {
    /// The empty span.
    pub fn zero() -> (duration: Self)
        ensures
            duration.nanos == 0,
    {
        AnimationDuration { nanos: 0 }
    }

    /// A span of `nanos` nanoseconds.
    pub fn from_nanos(nanos: u64) -> (duration: Self)
        ensures
            duration.nanos == nanos,
    {
        AnimationDuration { nanos }
    }

    /// A span of `millis` milliseconds, capped at the longest span that can be held.
    pub fn from_millis(millis: u64) -> (duration: Self)
        ensures
            duration.nanos as int == if millis * NANOS_PER_MILLI <= u64::MAX {
                millis * NANOS_PER_MILLI
            } else {
                u64::MAX as int
            },
    {
        if millis > u64::MAX / NANOS_PER_MILLI {
            AnimationDuration { nanos: u64::MAX }
        } else {
            AnimationDuration { nanos: millis * NANOS_PER_MILLI }
        }
    }

    /// A span of `secs` seconds, capped at the longest span that can be held.
    pub fn from_secs(secs: u64) -> (duration: Self)
        ensures
            duration.nanos as int == if secs * NANOS_PER_SEC <= u64::MAX {
                secs * NANOS_PER_SEC
            } else {
                u64::MAX as int
            },
    {
        if secs > u64::MAX / NANOS_PER_SEC {
            AnimationDuration { nanos: u64::MAX }
        } else {
            AnimationDuration { nanos: secs * NANOS_PER_SEC }
        }
    }

    /// The span in nanoseconds.
    pub fn as_nanos(&self) -> (nanos: u64)
        ensures
            nanos == self.nanos,
    {
        self.nanos
    }
}

} // verus!
