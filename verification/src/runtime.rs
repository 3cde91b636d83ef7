//! The command contract with the container runtime.
//!
//! The runtime is asked three things: to launch a workspace, to inspect a
//! running one, and to terminate one. This module says which program is run
//! with which arguments for each, and how the answer is read. It runs
//! nothing itself.

use vstd::prelude::*;
use crate::error::WorkspaceError;
use crate::text::{char_is_whitespace, chars_of, is_whitespace, split, split_on, text_of, trim,
    trimmed, utf8_text};

verus! {

/// Where the secret stands among the arguments of a launch.
pub const LAUNCH_SECRET_INDEX: usize = 18;

/// Where the container's own command starts among the arguments of a launch.
pub const LAUNCH_COMMAND_INDEX: usize = 13;

/// Where the secret stands in the container's own command; the inspect
/// query reads it back from there.
pub const COMMAND_SECRET_INDEX: usize = 5;

/// One request to the container runtime.
#[derive(Clone, Debug, PartialEq, Eq)]
pub enum RuntimeRequest {
    /// Start the workspace container `name`, with `user_data_dir` as its
    /// workspace storage and `secret` as its connection secret.
    Launch { name: String, user_data_dir: String, secret: String },
    /// Ask for the published port and the connection secret of `name`.
    Inspect { name: String },
    /// Stop the container `name`.
    Terminate { name: String },
}

/// A `RuntimeRequest` as plain sequences of characters.
pub enum RuntimeRequestModel {
    Launch { name: Seq<char>, user_data_dir: Seq<char>, secret: Seq<char> },
    Inspect { name: Seq<char> },
    Terminate { name: Seq<char> },
}

impl View for RuntimeRequest {
    type V = RuntimeRequestModel;

    open spec fn view(&self) -> RuntimeRequestModel {
        match self {
            RuntimeRequest::Launch { name, user_data_dir, secret } => RuntimeRequestModel::Launch {
                name: name@,
                user_data_dir: user_data_dir@,
                secret: secret@,
            },
            RuntimeRequest::Inspect { name } => RuntimeRequestModel::Inspect { name: name@ },
            RuntimeRequest::Terminate { name } => RuntimeRequestModel::Terminate { name: name@ },
        }
    }
}

/// What came of running a request.
#[derive(Clone, Debug, PartialEq, Eq)]
pub enum RuntimeReply {
    /// The runtime could not be run, or was not waited for.
    NotRun,
    /// The runtime ran and ended with `code` (`None` if it was killed),
    /// having written `stdout`.
    Exited { code: Option<i32>, stdout: Vec<u8> },
}

impl RuntimeReply {
    /// The runtime did what it was asked: it ran and ended with code 0.
    pub open spec fn succeeded(&self) -> bool {
        match self {
            RuntimeReply::Exited { code: Some(c), .. } => *c == 0,
            _ => false,
        }
    }

    /// What the runtime wrote; nothing if it did not run.
    pub open spec fn output(&self) -> Seq<u8> {
        match self {
            RuntimeReply::Exited { stdout, .. } => stdout@,
            RuntimeReply::NotRun => Seq::empty(),
        }
    }

    /// Tells whether the runtime did what it was asked.
    pub fn is_success(&self) -> (ok: bool)
        ensures
            ok == self.succeeded(),
    {
        match self {
            RuntimeReply::Exited { code: Some(c), .. } => *c == 0,
            _ => false,
        }
    }
}

/// The published port and the connection secret of a running workspace.
#[derive(Clone, Debug, PartialEq, Eq)]
pub struct ContainerEndpoint {
    pub host_port: String,
    pub secret: String,
}

/// A `ContainerEndpoint` as plain sequences of characters.
pub struct ContainerEndpointModel {
    pub host_port: Seq<char>,
    pub secret: Seq<char>,
}

impl View for ContainerEndpoint {
    type V = ContainerEndpointModel;

    open spec fn view(&self) -> ContainerEndpointModel {
        ContainerEndpointModel { host_port: self.host_port@, secret: self.secret@ }
    }
}

/// The arguments that launch a workspace: a detached, self-removing
/// container called `name` that publishes the IDE server's port 3000 on a
/// host port of the runtime's choosing, mounts `user_data_dir` as the
/// workspace, and starts the IDE server on all interfaces with
/// `secret` as its connection token and shutdown when idle.
pub open spec fn launch_arguments(name: Seq<char>, user_data_dir: Seq<char>, secret: Seq<char>) -> Seq<
    Seq<char>,
> {
    seq![
        "run"@,
        "-d"@,
        "--rm"@,
        "--name"@,
        name,
        "--init"@,
        "--entrypoint"@,
        ""@,
        "-p"@,
        "3000"@,
        "-v"@,
        user_data_dir + ":/home/workspace:z,cached"@,
        "gitpod/openvscode-server"@,
        "sh"@,
        "-c"@,
        "exec ${OPENVSCODE_SERVER_ROOT}/bin/openvscode-server \"${@}\""@,
        "--"@,
        "--connection-token"@,
        secret,
        "--host"@,
        "0.0.0.0"@,
        "--enable-remote-auto-shutdown"@,
    ]
}

/// The arguments that inspect `name`: the answer is one line, the host port
/// bound to port 3000 and the secret from the container's command, with one
/// space between them.
pub open spec fn inspect_arguments(name: Seq<char>) -> Seq<Seq<char>> {
    seq![
        "inspect"@,
        name,
        "-f"@,
        "{{(index (index .NetworkSettings.Ports \"3000/tcp\") 0).HostPort}} {{ index (index .Config.Cmd) 5 }}"@,
    ]
}

/// The arguments that stop `name`.
pub open spec fn terminate_arguments(name: Seq<char>) -> Seq<Seq<char>> {
    seq!["stop"@, name]
}

/// The arguments that the runtime is run with for `request`.
pub open spec fn arguments_of(request: RuntimeRequestModel) -> Seq<Seq<char>> {
    match request {
        RuntimeRequestModel::Launch { name, user_data_dir, secret } => launch_arguments(
            name,
            user_data_dir,
            secret,
        ),
        RuntimeRequestModel::Inspect { name } => inspect_arguments(name),
        RuntimeRequestModel::Terminate { name } => terminate_arguments(name),
    }
}

/// Whether `s` is a value of an inspect answer: not empty and free of
/// whitespace.
pub open spec fn is_token(s: Seq<char>) -> bool {
    &&& s.len() > 0
    &&& forall|i: int| 0 <= i < s.len() ==> !is_whitespace(#[trigger] s[i])
}

/// The endpoint that the text of an inspect answer gives: after trimming,
/// exactly two values with one space between them. Any other shape gives
/// none.
pub open spec fn endpoint_in_text(answer: Seq<char>) -> Option<ContainerEndpointModel> {
    let parts = split_on(trimmed(answer), ' ');
    if parts.len() == 2 && is_token(parts[0]) && is_token(parts[1]) {
        Some(ContainerEndpointModel { host_port: parts[0], secret: parts[1] })
    } else {
        None
    }
}

/// The endpoint that the output of an inspect request gives.
pub open spec fn endpoint_in_output(stdout: Seq<u8>) -> Option<ContainerEndpointModel> {
    match utf8_text(stdout) {
        Some(answer) => endpoint_in_text(answer),
        None => None,
    }
}

/// The endpoint that the reply to an inspect request gives.
pub open spec fn inspected_endpoint(reply: RuntimeReply) -> Option<ContainerEndpointModel> {
    if reply.succeeded() {
        endpoint_in_output(reply.output())
    } else {
        None
    }
}

/// `r` reports `endpoint`: the endpoint, or `InspectError` where there is
/// none.
pub open spec fn reports_endpoint(
    r: Result<ContainerEndpoint, WorkspaceError>,
    endpoint: Option<ContainerEndpointModel>,
) -> bool {
    match endpoint {
        Some(e) => r is Ok && r->Ok_0@ == e,
        None => r == Err::<ContainerEndpoint, WorkspaceError>(WorkspaceError::InspectError),
    }
}

/// In a launch, the secret stands where the inspect query looks for it: at
/// `COMMAND_SECRET_INDEX` of the container's own command, which is what
/// follows the image among the arguments.
pub proof fn lemma_launch_echoes_secret(
    name: Seq<char>,
    user_data_dir: Seq<char>,
    secret: Seq<char>,
)
    ensures
        launch_arguments(name, user_data_dir, secret).len() == 22,
        launch_arguments(name, user_data_dir, secret)[LAUNCH_SECRET_INDEX as int] == secret,
        launch_arguments(name, user_data_dir, secret).skip(
            LAUNCH_COMMAND_INDEX as int,
        )[COMMAND_SECRET_INDEX as int] == secret,
        launch_arguments(name, user_data_dir, secret)[4] == name,
{
}

/// The program that is the container runtime.
pub fn runtime_program() -> (program: String)
    ensures
        program@ == "docker"@,
{
    String::from_str("docker")
}

impl RuntimeRequest {
    /// The arguments to run the runtime with.
    pub fn arguments(&self) -> (arguments: Vec<String>)
        ensures
            arguments.deep_view() == arguments_of(self@),
    {
        match self {
            RuntimeRequest::Launch { name, user_data_dir, secret } => launch_command(
                name.as_str(),
                user_data_dir.as_str(),
                secret.as_str(),
            ),
            RuntimeRequest::Inspect { name } => inspect_command(name.as_str()),
            RuntimeRequest::Terminate { name } => terminate_command(name.as_str()),
        }
    }
}

/// The arguments that launch the workspace `name`.
pub fn launch_command(name: &str, user_data_dir: &str, secret: &str) -> (arguments: Vec<String>)
    ensures
        arguments.deep_view() == launch_arguments(name@, user_data_dir@, secret@),
{
    let mut mount = String::from_str(user_data_dir);
    mount.append(":/home/workspace:z,cached");
    let mut arguments: Vec<String> = Vec::new();
    arguments.push(String::from_str("run"));
    arguments.push(String::from_str("-d"));
    arguments.push(String::from_str("--rm"));
    arguments.push(String::from_str("--name"));
    arguments.push(String::from_str(name));
    arguments.push(String::from_str("--init"));
    arguments.push(String::from_str("--entrypoint"));
    arguments.push(String::from_str(""));
    arguments.push(String::from_str("-p"));
    arguments.push(String::from_str("3000"));
    arguments.push(String::from_str("-v"));
    arguments.push(mount);
    arguments.push(String::from_str("gitpod/openvscode-server"));
    arguments.push(String::from_str("sh"));
    arguments.push(String::from_str("-c"));
    arguments.push(
        String::from_str("exec ${OPENVSCODE_SERVER_ROOT}/bin/openvscode-server \"${@}\""),
    );
    arguments.push(String::from_str("--"));
    arguments.push(String::from_str("--connection-token"));
    arguments.push(String::from_str(secret));
    arguments.push(String::from_str("--host"));
    arguments.push(String::from_str("0.0.0.0"));
    arguments.push(String::from_str("--enable-remote-auto-shutdown"));
    assert(arguments.deep_view() =~= launch_arguments(name@, user_data_dir@, secret@));
    arguments
}

/// The arguments that inspect the workspace `name`.
pub fn inspect_command(name: &str) -> (arguments: Vec<String>)
    ensures
        arguments.deep_view() == inspect_arguments(name@),
{
    let mut arguments: Vec<String> = Vec::new();
    arguments.push(String::from_str("inspect"));
    arguments.push(String::from_str(name));
    arguments.push(String::from_str("-f"));
    arguments.push(
        String::from_str(
            "{{(index (index .NetworkSettings.Ports \"3000/tcp\") 0).HostPort}} {{ index (index .Config.Cmd) 5 }}",
        ),
    );
    assert(arguments.deep_view() =~= inspect_arguments(name@));
    arguments
}

/// The arguments that stop the workspace `name`.
pub fn terminate_command(name: &str) -> (arguments: Vec<String>)
    ensures
        arguments.deep_view() == terminate_arguments(name@),
{
    let mut arguments: Vec<String> = Vec::new();
    arguments.push(String::from_str("stop"));
    arguments.push(String::from_str(name));
    assert(arguments.deep_view() =~= terminate_arguments(name@));
    arguments
}

/// Tells whether `s` is not empty and free of whitespace.
pub fn check_token(s: &str) -> (ok: bool)
    ensures
        ok == is_token(s@),
{
    let chars = chars_of(s);
    let n: usize = chars.len();
    if n == 0 {
        return false;
    }
    let mut i: usize = 0;
    while i < n
        invariant
            chars@ == s@,
            n == chars.len(),
            i <= n,
            forall|k: int| 0 <= k < i ==> !is_whitespace(#[trigger] s@[k]),
        decreases n - i,
    {
        if char_is_whitespace(chars[i]) {
            return false;
        }
        i = i + 1;
    }
    true
}

/// Reads the endpoint out of the text of an inspect answer.
pub fn parse_inspect_answer(answer: &str) -> (r: Result<ContainerEndpoint, WorkspaceError>)
    ensures
        reports_endpoint(r, endpoint_in_text(answer@)),
{
    let line = trim(answer);
    let mut parts = split(line.as_str(), ' ');
    if parts.len() != 2 {
        return Err(WorkspaceError::InspectError);
    }
    assert(parts.deep_view()[0] == parts[0]@);
    assert(parts.deep_view()[1] == parts[1]@);
    if !check_token(parts[0].as_str()) || !check_token(parts[1].as_str()) {
        return Err(WorkspaceError::InspectError);
    }
    let secret = parts.pop().unwrap();
    let host_port = parts.pop().unwrap();
    Ok(ContainerEndpoint { host_port, secret })
}

/// Reads the endpoint out of the output of an inspect request.
pub fn parse_inspect_output(stdout: Vec<u8>) -> (r: Result<ContainerEndpoint, WorkspaceError>)
    ensures
        reports_endpoint(r, endpoint_in_output(stdout@)),
{
    match text_of(stdout) {
        Some(answer) => parse_inspect_answer(answer.as_str()),
        None => Err(WorkspaceError::InspectError),
    }
}

/// The outcome of a launch: `LaunchError` unless the runtime did it.
pub fn launch_outcome(reply: &RuntimeReply) -> (r: Result<(), WorkspaceError>)
    ensures
        reply.succeeded() ==> r is Ok,
        !reply.succeeded() ==> r == Err::<(), WorkspaceError>(WorkspaceError::LaunchError),
{
    if reply.is_success() {
        Ok(())
    } else {
        Err(WorkspaceError::LaunchError)
    }
}

/// The outcome of an inspect request: the endpoint, or `InspectError` where
/// the runtime failed or its answer has another shape.
pub fn inspect_outcome(reply: RuntimeReply) -> (r: Result<ContainerEndpoint, WorkspaceError>)
    ensures
        reports_endpoint(r, inspected_endpoint(reply)),
{
    match reply {
        RuntimeReply::Exited { code: Some(c), stdout } => {
            if c == 0 {
                parse_inspect_output(stdout)
            } else {
                Err(WorkspaceError::InspectError)
            }
        },
        _ => Err(WorkspaceError::InspectError),
    }
}

/// The outcome of a termination: `TerminateError` unless the runtime did it.
pub fn terminate_outcome(reply: &RuntimeReply) -> (r: Result<(), WorkspaceError>)
    ensures
        reply.succeeded() ==> r is Ok,
        !reply.succeeded() ==> r == Err::<(), WorkspaceError>(WorkspaceError::TerminateError),
{
    if reply.is_success() {
        Ok(())
    } else {
        Err(WorkspaceError::TerminateError)
    }
}

} // verus!
