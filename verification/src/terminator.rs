//! Stopping a workspace.
//!
//! The workspace to stop is always the caller's own: its name is derived
//! from the identity token exactly as a launch derives it. There is no way
//! to stop a container by a name given from outside.

use vstd::prelude::*;
use crate::error::WorkspaceError;
use crate::identity::{claimed_user_id, parse_access_token};
use crate::naming::{workspace_name, workspace_name_of};
use crate::protocol::{Action, ActionModel, Event};
use crate::runtime::{arguments_of, terminate_arguments, terminate_outcome, RuntimeRequest,
    RuntimeRequestModel};

verus! {

/// Where a stop stands.
#[derive(Clone, Debug, PartialEq, Eq)]
pub enum StopState {
    /// Nothing was done yet; the caller's token is awaited.
    ValidatingToken,
    /// The runtime was asked to stop `name`.
    Terminating { name: String },
    /// The workspace was stopped.
    Done,
    /// The stop was given up.
    Failed { reason: WorkspaceError },
}

/// A `StopState` as plain values.
pub enum StopStateModel {
    ValidatingToken,
    Terminating { name: Seq<char> },
    Done,
    Failed { reason: WorkspaceError },
}

impl View for StopState {
    type V = StopStateModel;

    open spec fn view(&self) -> StopStateModel {
        match self {
            StopState::ValidatingToken => StopStateModel::ValidatingToken,
            StopState::Terminating { name } => StopStateModel::Terminating { name: name@ },
            StopState::Done => StopStateModel::Done,
            StopState::Failed { reason } => StopStateModel::Failed { reason: *reason },
        }
    }
}

/// The request that stops the workspace of `user_id`.
pub open spec fn termination_of(user_id: Seq<char>) -> RuntimeRequestModel {
    RuntimeRequestModel::Terminate { name: workspace_name_of(user_id) }
}

/// The stop is given up for `reason`.
pub open spec fn stop_given_up(reason: WorkspaceError) -> (StopStateModel, ActionModel) {
    (StopStateModel::Failed { reason }, ActionModel::Reject { reason })
}

/// The state that follows `state` on `event`, and the action to take. An
/// event that the state does not await fails the stop at the step it stands
/// at.
pub open spec fn stop_transition(state: StopStateModel, event: Event) -> (
    StopStateModel,
    ActionModel,
) {
    match state {
        StopStateModel::ValidatingToken => match event {
            Event::Request { token } => match claimed_user_id(token@) {
                Some(user_id) => (
                    StopStateModel::Terminating { name: workspace_name_of(user_id) },
                    ActionModel::Run { request: termination_of(user_id) },
                ),
                None => stop_given_up(WorkspaceError::InvalidToken),
            },
            _ => stop_given_up(WorkspaceError::InvalidToken),
        },
        StopStateModel::Terminating { name } => match event {
            Event::Reply { reply } => if reply.succeeded() {
                (StopStateModel::Done, ActionModel::Acknowledge)
            } else {
                stop_given_up(WorkspaceError::TerminateError)
            },
            _ => stop_given_up(WorkspaceError::TerminateError),
        },
        StopStateModel::Done => (StopStateModel::Done, ActionModel::Acknowledge),
        StopStateModel::Failed { reason } => stop_given_up(reason),
    }
}

/// Stopping the workspace of a user stops the container of that user's
/// name and no other: the runtime is run with `stop` and that one name.
pub proof fn lemma_termination_targets_own_workspace(user_id: Seq<char>)
    ensures
        arguments_of(termination_of(user_id)) == terminate_arguments(workspace_name_of(user_id)),
        arguments_of(termination_of(user_id)).len() == 2,
        arguments_of(termination_of(user_id))[1] == workspace_name_of(user_id),
{
}

/// A stop asks the runtime for nothing but the termination of the
/// workspace that the presented token names, and only once such a token
/// was presented.
pub proof fn lemma_stop_calls_runtime_for_caller_only(state: StopStateModel, event: Event)
    requires
        stop_transition(state, event).1.calls_runtime(),
    ensures
        state is ValidatingToken,
        event is Request,
        claimed_user_id(event->token@) is Some,
        stop_transition(state, event).1->request == termination_of(
            claimed_user_id(event->token@)->0,
        ),
{
}

/// A stop is acknowledged only if the runtime stopped the container: a
/// runtime that fails, as it does for a container that does not exist,
/// ends the stop in `TerminateError`.
pub proof fn lemma_stop_succeeds_only_with_runtime(name: Seq<char>, event: Event)
    ensures
        stop_transition(StopStateModel::Terminating { name }, event).0 is Done <==> (event is Reply
            && event->reply.succeeded()),
        !(event is Reply && event->reply.succeeded()) ==> stop_transition(
            StopStateModel::Terminating { name },
            event,
        ) == stop_given_up(WorkspaceError::TerminateError),
{
}

/// The request that stops the workspace of `user_id`.
pub fn terminate(user_id: &str) -> (request: RuntimeRequest)
    ensures
        request@ == termination_of(user_id@),
{
    RuntimeRequest::Terminate { name: workspace_name(user_id) }
}

/// The stop is given up for `reason`.
fn give_up(reason: WorkspaceError) -> (r: (StopState, Action))
    ensures
        (r.0@, r.1@) == stop_given_up(reason),
{
    (StopState::Failed { reason }, Action::Reject { reason })
}

/// Takes one step of a stop.
pub fn stop_step(state: StopState, event: Event) -> (r: (StopState, Action))
    ensures
        (r.0@, r.1@) == stop_transition(state@, event),
{
    match state {
        StopState::ValidatingToken => match event {
            Event::Request { token } => match parse_access_token(token.as_str()) {
                Ok(user_id) => (
                    StopState::Terminating { name: workspace_name(user_id.as_str()) },
                    Action::Run { request: terminate(user_id.as_str()) },
                ),
                Err(reason) => give_up(reason),
            },
            _ => give_up(WorkspaceError::InvalidToken),
        },
        StopState::Terminating { name } => match event {
            Event::Reply { reply } => match terminate_outcome(&reply) {
                Ok(_) => (StopState::Done, Action::Acknowledge),
                Err(reason) => give_up(reason),
            },
            _ => give_up(WorkspaceError::TerminateError),
        },
        StopState::Done => (StopState::Done, Action::Acknowledge),
        StopState::Failed { reason } => give_up(reason),
    }
}

} // verus!
