//! The ways in which following a chain ends.

use vstd::prelude::*;

verus! {

/// Why a run stopped.
#[derive(Clone, Copy, Debug, PartialEq, Eq, Structural)]
pub enum FollowError {
    /// The subscription reported that it is closed.
    SubscriptionClosed,
    /// A notification, or the result of executing a block, could not be decoded.
    DecodeFailure,
    /// The local runtime is not the one that the remote chain runs.
    IdentityMismatch,
    /// A header, a block or the remote state could not be retrieved.
    FetchFailure,
    /// The runtime refused to execute a block, or its changes could not be
    /// committed.
    ExecutionFailure,
}

impl FollowError {
    /// The feed came to its end: nothing failed but the connection.
    pub open spec fn end_of_feed(self) -> bool {
        self is SubscriptionClosed || self is DecodeFailure
    }

    /// What went wrong, in words.
    pub open spec fn description(self) -> Seq<char> {
        match self {
            FollowError::SubscriptionClosed => "subscription closed"@,
            FollowError::DecodeFailure => "failed to decode output"@,
            FollowError::IdentityMismatch => "runtime spec names or versions do not match"@,
            FollowError::FetchFailure => "failed to fetch from the remote node"@,
            FollowError::ExecutionFailure => "failed to execute the block"@,
        }
    }

    /// What went wrong, in words.
    pub fn message(&self) -> (text: &'static str)
        ensures
            text@ == self.description(),
    {
        match self {
            FollowError::SubscriptionClosed => "subscription closed",
            FollowError::DecodeFailure => "failed to decode output",
            FollowError::IdentityMismatch => "runtime spec names or versions do not match",
            FollowError::FetchFailure => "failed to fetch from the remote node",
            FollowError::ExecutionFailure => "failed to execute the block",
        }
    }

    /// Whether this is the ordinary end of a run, which a dropped connection
    /// brings about, and no failure of a stage.
    pub fn is_end_of_feed(&self) -> (clean: bool)
        ensures
            clean == self.end_of_feed(),
    {
        match self {
            FollowError::SubscriptionClosed => true,
            FollowError::DecodeFailure => true,
            _ => false,
        }
    }
}

} // verus!
