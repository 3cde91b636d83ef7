//! The kinds of failure a workspace operation can end in.

use vstd::prelude::*;

verus! {

/// Why a workspace operation was given up.
#[derive(Clone, Copy, Debug, PartialEq, Eq, Structural)]
pub enum WorkspaceError {
    /// The identity token was malformed or carried no usable user id.
    InvalidToken,
    /// The runtime refused or failed to start the container.
    LaunchError,
    /// The runtime's metadata query failed or its answer had the wrong shape.
    InspectError,
    /// The redirect template did not yield a valid URI.
    URLBuildError,
    /// The runtime refused or failed to stop the container.
    TerminateError,
}

/// How a caller is refused.
#[derive(Clone, Copy, Debug, PartialEq, Eq, Structural)]
pub enum Refusal {
    /// The caller's token was not accepted.
    InvalidAccessToken,
    /// The operation failed; the caller is told no more.
    Unspecified,
}

impl WorkspaceError {
    /// How a caller is refused after this failure. Only a bad token is
    /// told apart; the runtime's failures all look the same from outside.
    pub fn refusal(&self) -> (r: Refusal)
        ensures
            r == (if *self == WorkspaceError::InvalidToken {
                Refusal::InvalidAccessToken
            } else {
                Refusal::Unspecified
            }),
    {
        match self {
            WorkspaceError::InvalidToken => Refusal::InvalidAccessToken,
            _ => Refusal::Unspecified,
        }
    }
}

} // verus!
