//! What passes between an operation and whoever drives it.
//!
//! An operation on a workspace is a small machine. It is handed an event and
//! answers with its next state and an action; whoever drives it performs the
//! action and hands back the event that came of it.

use vstd::prelude::*;
use crate::error::WorkspaceError;
use crate::runtime::{RuntimeReply, RuntimeRequest, RuntimeRequestModel};

verus! {

/// What happened outside the machine.
#[derive(Clone, Debug, PartialEq, Eq)]
pub enum Event {
    /// A caller asked for the operation and presented `token`.
    Request { token: String },
    /// The runtime answered the request that the last action asked for.
    Reply { reply: RuntimeReply },
    /// The last action asked for nothing, and nothing happened.
    Proceed,
}

/// What the machine wants done.
#[derive(Clone, Debug, PartialEq, Eq)]
pub enum Action {
    /// Send `request` to the runtime and hand back its reply.
    Run { request: RuntimeRequest },
    /// Do nothing and hand back `Event::Proceed`.
    Proceed,
    /// The operation is done: send the caller to `url`.
    Redirect { url: String },
    /// The operation is done and there is nothing to tell.
    Acknowledge,
    /// The operation was given up for `reason`: refuse the caller.
    Reject { reason: WorkspaceError },
}

/// An `Action` as plain values.
pub enum ActionModel {
    Run { request: RuntimeRequestModel },
    Proceed,
    Redirect { url: Seq<char> },
    Acknowledge,
    Reject { reason: WorkspaceError },
}

impl View for Action {
    type V = ActionModel;

    open spec fn view(&self) -> ActionModel {
        match self {
            Action::Run { request } => ActionModel::Run { request: request@ },
            Action::Proceed => ActionModel::Proceed,
            Action::Redirect { url } => ActionModel::Redirect { url: url@ },
            Action::Acknowledge => ActionModel::Acknowledge,
            Action::Reject { reason } => ActionModel::Reject { reason: *reason },
        }
    }
}

impl ActionModel {
    /// Whether the action asks anything of the runtime.
    pub open spec fn calls_runtime(self) -> bool {
        self is Run
    }

    /// Whether the action ends the operation.
    pub open spec fn is_final(self) -> bool {
        self is Redirect || self is Acknowledge || self is Reject
    }
}

} // verus!
