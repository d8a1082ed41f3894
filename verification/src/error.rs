//! The ways a request can be refused.

use vstd::prelude::*;

verus! {

/// Why a recovery or a solve request was refused.
#[derive(Clone, Copy, Debug, PartialEq, Eq, Structural)]
pub enum IkError {
    /// A sequence handed in does not have the length that the robot's chain
    /// count or joint count calls for.
    ShapeMismatch,
    /// An empty starting configuration asked for the recorded one, and none
    /// has been recorded yet.
    InvalidInput,
}

impl IkError {
    /// A sentence for the person who reads the failure.
    pub fn describe(&self) -> (text: &'static str)
        ensures
            *self == IkError::ShapeMismatch ==> text@ == "input length does not match the robot's chain or joint count"@,
            *self == IkError::InvalidInput ==> text@ == "no starting configuration was given and none is recorded"@,
    {
        match self {
            IkError::ShapeMismatch => "input length does not match the robot's chain or joint count",
            IkError::InvalidInput => "no starting configuration was given and none is recorded",
        }
    }
}

} // verus!
