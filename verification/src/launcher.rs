//! Launching a workspace: from an identity token to a redirect.
//!
//! A launch runs through its states in one pass: the token is validated,
//! the container is launched, the running container is inspected, the
//! redirect address is built. Any step may fail, and a failure is final:
//! nothing is retried and nothing is undone. In particular a container that
//! was launched stays up when a later step fails.

use vstd::prelude::*;
use crate::error::WorkspaceError;
use crate::identity::{claimed_user_id, parse_access_token};
use crate::naming::{user_data_dir, user_data_dir_of, workspace_name, workspace_name_of};
use crate::protocol::{Action, ActionModel, Event};
use crate::redirect::{build_redirect_url, redirect_url};
use crate::runtime::{inspect_outcome, inspected_endpoint, launch_outcome, ContainerEndpoint,
    ContainerEndpointModel, RuntimeRequest, RuntimeRequestModel};
use crate::secret::{generate_secret_token, is_connection_secret};
use crate::settings::{Settings, SettingsModel};

verus! {

/// Where a launch stands.
#[derive(Clone, Debug, PartialEq, Eq)]
pub enum LaunchState {
    /// Nothing was done yet; the caller's token is awaited.
    ValidatingToken,
    /// The runtime was asked to launch `name`.
    Launching { name: String },
    /// The runtime was asked to inspect `name`.
    Inspecting { name: String },
    /// The endpoint is known; the redirect address is to be built.
    BuildingURL { endpoint: ContainerEndpoint },
    /// The workspace runs and is reached at `url`.
    Done { url: String },
    /// The launch was given up.
    Failed { reason: WorkspaceError },
}

/// A `LaunchState` as plain values.
pub enum LaunchStateModel {
    ValidatingToken,
    Launching { name: Seq<char> },
    Inspecting { name: Seq<char> },
    BuildingURL { endpoint: ContainerEndpointModel },
    Done { url: Seq<char> },
    Failed { reason: WorkspaceError },
}

impl View for LaunchState {
    type V = LaunchStateModel;

    open spec fn view(&self) -> LaunchStateModel {
        match self {
            LaunchState::ValidatingToken => LaunchStateModel::ValidatingToken,
            LaunchState::Launching { name } => LaunchStateModel::Launching { name: name@ },
            LaunchState::Inspecting { name } => LaunchStateModel::Inspecting { name: name@ },
            LaunchState::BuildingURL { endpoint } => LaunchStateModel::BuildingURL {
                endpoint: endpoint@,
            },
            LaunchState::Done { url } => LaunchStateModel::Done { url: url@ },
            LaunchState::Failed { reason } => LaunchStateModel::Failed { reason: *reason },
        }
    }
}

impl LaunchStateModel {
    /// How far the launch has come: the number of steps that succeeded.
    /// A failed launch has no place in the order.
    pub open spec fn progress(self) -> int {
        match self {
            LaunchStateModel::ValidatingToken => 0,
            LaunchStateModel::Launching { .. } => 1,
            LaunchStateModel::Inspecting { .. } => 2,
            LaunchStateModel::BuildingURL { .. } => 3,
            LaunchStateModel::Done { .. } => 4,
            LaunchStateModel::Failed { .. } => -1,
        }
    }
}

/// The launch is given up for `reason`.
pub open spec fn given_up(reason: WorkspaceError) -> (LaunchStateModel, ActionModel) {
    (LaunchStateModel::Failed { reason }, ActionModel::Reject { reason })
}

/// The launch of the workspace of `user_id` with `secret`.
pub open spec fn launch_of(settings: SettingsModel, user_id: Seq<char>, secret: Seq<char>) -> (
    LaunchStateModel,
    ActionModel,
) {
    (
        LaunchStateModel::Launching { name: workspace_name_of(user_id) },
        ActionModel::Run {
            request: RuntimeRequestModel::Launch {
                name: workspace_name_of(user_id),
                user_data_dir: user_data_dir_of(settings.data_dir, user_id),
                secret,
            },
        },
    )
}

/// The state that follows `state` on `event`, and the action to take.
/// `secret` is the connection secret that a launch is given. An event that
/// the state does not await fails the launch at the step it stands at.
pub open spec fn transition(
    settings: SettingsModel,
    state: LaunchStateModel,
    event: Event,
    secret: Seq<char>,
) -> (LaunchStateModel, ActionModel) {
    match state {
        LaunchStateModel::ValidatingToken => match event {
            Event::Request { token } => match claimed_user_id(token@) {
                Some(user_id) => launch_of(settings, user_id, secret),
                None => given_up(WorkspaceError::InvalidToken),
            },
            _ => given_up(WorkspaceError::InvalidToken),
        },
        LaunchStateModel::Launching { name } => match event {
            Event::Reply { reply } => if reply.succeeded() {
                (
                    LaunchStateModel::Inspecting { name },
                    ActionModel::Run { request: RuntimeRequestModel::Inspect { name } },
                )
            } else {
                given_up(WorkspaceError::LaunchError)
            },
            _ => given_up(WorkspaceError::LaunchError),
        },
        LaunchStateModel::Inspecting { name } => match event {
            Event::Reply { reply } => match inspected_endpoint(reply) {
                Some(endpoint) => (
                    LaunchStateModel::BuildingURL { endpoint },
                    ActionModel::Proceed,
                ),
                None => given_up(WorkspaceError::InspectError),
            },
            _ => given_up(WorkspaceError::InspectError),
        },
        LaunchStateModel::BuildingURL { endpoint } => match redirect_url(
            settings.container_url,
            endpoint.host_port,
            endpoint.secret,
        ) {
            Some(url) => (LaunchStateModel::Done { url }, ActionModel::Redirect { url }),
            None => given_up(WorkspaceError::URLBuildError),
        },
        LaunchStateModel::Done { url } => (
            LaunchStateModel::Done { url },
            ActionModel::Redirect { url },
        ),
        LaunchStateModel::Failed { reason } => given_up(reason),
    }
}

/// The connection secret that `action` hands to the runtime; empty where it
/// hands none.
pub open spec fn issued_secret(action: ActionModel) -> Seq<char> {
    match action {
        ActionModel::Run { request: RuntimeRequestModel::Launch { secret, .. } } => secret,
        _ => Seq::empty(),
    }
}

/// The runtime is asked nothing before a well-formed token was presented.
pub proof fn lemma_runtime_call_needs_valid_token(
    settings: SettingsModel,
    event: Event,
    secret: Seq<char>,
)
    requires
        transition(settings, LaunchStateModel::ValidatingToken, event, secret).1.calls_runtime(),
    ensures
        event is Request,
        claimed_user_id(event->token@) is Some,
{
}

/// A launch moves on by one state at a time, or fails; once it is done or
/// has failed it stays as it is.
pub proof fn lemma_launch_is_sequential(
    settings: SettingsModel,
    state: LaunchStateModel,
    event: Event,
    secret: Seq<char>,
)
    ensures
        ({
            let next = transition(settings, state, event, secret).0;
            ||| next is Failed
            ||| (state is Done && next == state)
            ||| next.progress() == state.progress() + 1
        }),
        state is Failed ==> transition(settings, state, event, secret) == given_up(state->reason),
{
}

/// A container is inspected only after the runtime launched it, and the
/// redirect address is built only from an endpoint that the runtime's
/// answer gave.
pub proof fn lemma_launch_preconditions(
    settings: SettingsModel,
    state: LaunchStateModel,
    event: Event,
    secret: Seq<char>,
)
    ensures
        ({
            let next = transition(settings, state, event, secret).0;
            &&& next is Inspecting ==> state is Launching && event is Reply
                && event->reply.succeeded() && next->Inspecting_name == state->Launching_name
            &&& next is BuildingURL ==> state is Inspecting && event is Reply && inspected_endpoint(
                event->reply,
            ) == Some(next->endpoint)
            &&& next is Done ==> (state is BuildingURL || state is Done)
        }),
{
}

/// A launch that fails asks nothing more of the runtime: a container that
/// was launched is neither stopped nor removed.
pub proof fn lemma_failure_takes_no_action(
    settings: SettingsModel,
    state: LaunchStateModel,
    event: Event,
    secret: Seq<char>,
)
    requires
        transition(settings, state, event, secret).0 is Failed,
    ensures
        transition(settings, state, event, secret).1 is Reject,
        transition(settings, state, event, secret).1->reason == transition(
            settings,
            state,
            event,
            secret,
        ).0->reason,
{
}

/// A launch never asks the runtime to terminate anything.
pub proof fn lemma_launch_never_terminates(
    settings: SettingsModel,
    state: LaunchStateModel,
    event: Event,
    secret: Seq<char>,
)
    ensures
        !(transition(settings, state, event, secret).1 matches ActionModel::Run {
            request: RuntimeRequestModel::Terminate { .. },
        }),
{
}

/// Two launches for the same user ask the runtime for a container of the
/// same name, whatever their secrets: the runtime, which lets a name be
/// taken once, can grant at most one of them.
pub proof fn lemma_same_user_same_container(
    settings: SettingsModel,
    user_id: Seq<char>,
    first_secret: Seq<char>,
    second_secret: Seq<char>,
)
    ensures
        launch_of(settings, user_id, first_secret).1->request->Launch_name == launch_of(
            settings,
            user_id,
            second_secret,
        ).1->request->Launch_name,
        launch_of(settings, user_id, first_secret).0 == launch_of(
            settings,
            user_id,
            second_secret,
        ).0,
{
}

/// The launch is given up for `reason`.
fn give_up(reason: WorkspaceError) -> (r: (LaunchState, Action))
    ensures
        (r.0@, r.1@) == given_up(reason),
{
    (LaunchState::Failed { reason }, Action::Reject { reason })
}

/// Plans the launch of the workspace of `user_id` with `secret`.
pub fn plan_launch(settings: &Settings, user_id: &str, secret: String) -> (r: (
    LaunchState,
    Action,
))
    ensures
        (r.0@, r.1@) == launch_of(settings@, user_id@, secret@),
{
    let name = workspace_name(user_id);
    let user_data_dir = user_data_dir(settings.data_dir.as_str(), user_id);
    (
        LaunchState::Launching { name: name.clone() },
        Action::Run { request: RuntimeRequest::Launch { name, user_data_dir, secret } },
    )
}

/// Takes one step of a launch. A secret is generated at the one step that
/// launches, and nowhere else.
pub fn step(settings: &Settings, state: LaunchState, event: Event) -> (r: (LaunchState, Action))
    ensures
        (r.0@, r.1@) == transition(settings@, state@, event, issued_secret(r.1@)),
        r.1@ matches ActionModel::Run { request: RuntimeRequestModel::Launch { secret, .. } }
            ==> is_connection_secret(secret),
{
    match state {
        LaunchState::ValidatingToken => match event {
            Event::Request { token } => match parse_access_token(token.as_str()) {
                Ok(user_id) => plan_launch(settings, user_id.as_str(), generate_secret_token()),
                Err(reason) => give_up(reason),
            },
            _ => give_up(WorkspaceError::InvalidToken),
        },
        LaunchState::Launching { name } => match event {
            Event::Reply { reply } => match launch_outcome(&reply) {
                Ok(_) => (
                    LaunchState::Inspecting { name: name.clone() },
                    Action::Run { request: RuntimeRequest::Inspect { name } },
                ),
                Err(reason) => give_up(reason),
            },
            _ => give_up(WorkspaceError::LaunchError),
        },
        LaunchState::Inspecting { name } => match event {
            Event::Reply { reply } => match inspect_outcome(reply) {
                Ok(endpoint) => (LaunchState::BuildingURL { endpoint }, Action::Proceed),
                Err(reason) => give_up(reason),
            },
            _ => give_up(WorkspaceError::InspectError),
        },
        LaunchState::BuildingURL { endpoint } => match build_redirect_url(
            settings.container_url.as_str(),
            endpoint.host_port.as_str(),
            endpoint.secret.as_str(),
        ) {
            Ok(url) => (LaunchState::Done { url: url.clone() }, Action::Redirect { url }),
            Err(reason) => give_up(reason),
        },
        LaunchState::Done { url } => (
            LaunchState::Done { url: url.clone() },
            Action::Redirect { url },
        ),
        LaunchState::Failed { reason } => give_up(reason),
    }
}

} // verus!
