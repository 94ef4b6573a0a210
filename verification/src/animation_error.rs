use vstd::prelude::*;
use crate::types::AnimationIndex;

verus! {

/// A duration was given as a negative number of nanoseconds.
#[derive(Debug, Clone, Copy, PartialEq, Eq, Structural)]
pub struct NegativeAnimationTime(pub i64);

/// A name that did not resolve.
#[derive(Debug, Clone, PartialEq, Eq)]
pub enum NotFoundError {
    /// No sequence is registered under the name.
    AnimationSequence(String),
    /// The sequence holds no frames under the state name.
    SingleAnimation(String),
}

/// A grid region that describes no frame range.
#[derive(Debug, Clone, Copy, PartialEq, Eq, Structural)]
pub enum AnimationFrameError {
    /// The region ends in a row above the one it starts in.
    InvalidRows { start: AnimationIndex, end: AnimationIndex },
    /// The region's last frame lies before its first.
    InvalidIndexes { start: AnimationIndex, end: AnimationIndex },
}

/// Everything that can go wrong while sequences are built or registered.
#[derive(Debug, Clone, PartialEq, Eq)]
pub enum AnimationError {
    InvalidFrames(AnimationFrameError),
    NotFound(NotFoundError),
    /// Neither the caller nor the description names the sequence.
    NoSeqeunceKeyProvided,
    /// A sequence is already registered under the name.
    DuplicateKeySequenceProvided(String),
    /// A state name occurs twice among the entries of one sequence.
    DuplicateStateProvided(String),
    NegativeAnimationTime(NegativeAnimationTime),
}

impl NotFoundError {
    /// The name that did not resolve.
    pub open spec fn spec_key(&self) -> Seq<char> {
        match self {
            NotFoundError::AnimationSequence(key) => key@,
            NotFoundError::SingleAnimation(key) => key@,
        }
    }

    /// The name that did not resolve.
    pub fn key(&self) -> (key: &str)
        ensures
            key@ == self.spec_key(),
    {
        match self {
            NotFoundError::AnimationSequence(key) => key.as_str(),
            NotFoundError::SingleAnimation(key) => key.as_str(),
        }
    }
}

} // verus!
