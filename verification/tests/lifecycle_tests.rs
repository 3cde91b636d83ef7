use base64::engine::general_purpose::URL_SAFE_NO_PAD;
use base64::Engine;
use std::collections::HashSet;
use vscs_farm::error::WorkspaceError;
use vscs_farm::launcher::{plan_launch, step, LaunchState};
use vscs_farm::protocol::{Action, Event};
use vscs_farm::runtime::{ContainerEndpoint, RuntimeReply, RuntimeRequest};
use vscs_farm::secret::check_connection_secret;
use vscs_farm::settings::Settings;
use vscs_farm::terminator::{stop_step, terminate, StopState};

fn token_for(user_id: &str) -> String {
    let payload = format!("{{\"userId\":\"{}\"}}", user_id);
    format!("h.{}.s", URL_SAFE_NO_PAD.encode(payload.as_bytes()))
}

fn request(token: &str) -> Event {
    Event::Request { token: token.to_string() }
}

fn replied(code: i32, stdout: &[u8]) -> Event {
    Event::Reply { reply: RuntimeReply::Exited { code: Some(code), stdout: stdout.to_vec() } }
}

fn rejected(reason: WorkspaceError) -> (LaunchState, Action) {
    (LaunchState::Failed { reason }, Action::Reject { reason })
}

fn stop_rejected(reason: WorkspaceError) -> (StopState, Action) {
    (StopState::Failed { reason }, Action::Reject { reason })
}

/// A runtime that keeps the names of its running containers and nothing
/// else: a name can be taken once, and a container that was stopped is gone.
struct FakeRuntime {
    running: HashSet<String>,
    calls: Vec<Vec<String>>,
}

impl FakeRuntime {
    fn new() -> FakeRuntime {
        FakeRuntime { running: HashSet::new(), calls: Vec::new() }
    }

    fn run(&mut self, request: &RuntimeRequest) -> RuntimeReply {
        self.calls.push(request.arguments());
        match request {
            RuntimeRequest::Launch { name, .. } => {
                if self.running.insert(name.clone()) {
                    RuntimeReply::Exited { code: Some(0), stdout: b"0123abcd\n".to_vec() }
                } else {
                    RuntimeReply::Exited { code: Some(125), stdout: Vec::new() }
                }
            }
            RuntimeRequest::Inspect { name } => {
                if self.running.contains(name) {
                    RuntimeReply::Exited { code: Some(0), stdout: b"49213 abc123\n".to_vec() }
                } else {
                    RuntimeReply::Exited { code: Some(1), stdout: b"\n".to_vec() }
                }
            }
            RuntimeRequest::Terminate { name } => {
                if self.running.remove(name) {
                    RuntimeReply::Exited { code: Some(0), stdout: Vec::new() }
                } else {
                    RuntimeReply::Exited { code: Some(1), stdout: Vec::new() }
                }
            }
        }
    }
}

fn drive_launch(settings: &Settings, runtime: &mut FakeRuntime, token: &str) -> LaunchState {
    let mut state = LaunchState::ValidatingToken;
    let mut event = request(token);
    loop {
        let (next, action) = step(settings, state, event);
        state = next;
        event = match action {
            Action::Run { request } => Event::Reply { reply: runtime.run(&request) },
            Action::Proceed => Event::Proceed,
            _ => return state,
        };
    }
}

fn drive_stop(runtime: &mut FakeRuntime, token: &str) -> StopState {
    let mut state = StopState::ValidatingToken;
    let mut event = request(token);
    loop {
        let (next, action) = stop_step(state, event);
        state = next;
        event = match action {
            Action::Run { request } => Event::Reply { reply: runtime.run(&request) },
            Action::Proceed => Event::Proceed,
            _ => return state,
        };
    }
}

#[test]
fn launch_runs_from_token_to_redirect() {
    let settings = Settings::resolve(None, None, None);
    let token = token_for("alice");
    assert_eq!(token, "h.eyJ1c2VySWQiOiJhbGljZSJ9.s");

    let (state, action) = step(&settings, LaunchState::ValidatingToken, request(&token));
    assert_eq!(state, LaunchState::Launching { name: "vscs-alice".to_string() });
    let secret = match &action {
        Action::Run { request: RuntimeRequest::Launch { name, user_data_dir, secret } } => {
            assert_eq!(name, "vscs-alice");
            assert_eq!(user_data_dir, "/opt/vscs-farm/alice");
            assert!(check_connection_secret(secret));
            secret.clone()
        }
        other => panic!("no launch: {:?}", other),
    };
    match &action {
        Action::Run { request } => {
            let arguments = request.arguments();
            assert_eq!(arguments[4], "vscs-alice");
            assert_eq!(arguments[11], "/opt/vscs-farm/alice:/home/workspace:z,cached");
            assert_eq!(arguments[17], "--connection-token");
            assert_eq!(arguments[18], secret);
        }
        other => panic!("no launch: {:?}", other),
    }

    let (state, action) = step(&settings, state, replied(0, b"6c1f0e\n"));
    assert_eq!(state, LaunchState::Inspecting { name: "vscs-alice".to_string() });
    assert_eq!(
        action,
        Action::Run { request: RuntimeRequest::Inspect { name: "vscs-alice".to_string() } }
    );

    let (state, action) = step(&settings, state, replied(0, b"49213 abc123"));
    assert_eq!(
        state,
        LaunchState::BuildingURL {
            endpoint: ContainerEndpoint {
                host_port: "49213".to_string(),
                secret: "abc123".to_string(),
            },
        }
    );
    assert_eq!(action, Action::Proceed);

    let (state, action) = step(&settings, state, Event::Proceed);
    assert_eq!(state, LaunchState::Done { url: "http://localhost:49213/?tkn=abc123".to_string() });
    assert_eq!(action, Action::Redirect { url: "http://localhost:49213/?tkn=abc123".to_string() });
}

#[test]
fn launch_mounts_data_under_configured_root() {
    let settings = Settings::resolve(None, None, Some("/srv/farm/".to_string()));
    let (_, action) = step(&settings, LaunchState::ValidatingToken, request(&token_for("bob")));
    match action {
        Action::Run { request: RuntimeRequest::Launch { name, user_data_dir, .. } } => {
            assert_eq!(name, "vscs-bob");
            assert_eq!(user_data_dir, "/srv/farm/bob");
        }
        other => panic!("no launch: {:?}", other),
    }
}

#[test]
fn planned_launch_carries_the_given_secret() {
    let settings = Settings::resolve(None, None, None);
    let (state, action) = plan_launch(&settings, "alice", "abc123".to_string());
    assert_eq!(state, LaunchState::Launching { name: "vscs-alice".to_string() });
    assert_eq!(
        action,
        Action::Run {
            request: RuntimeRequest::Launch {
                name: "vscs-alice".to_string(),
                user_data_dir: "/opt/vscs-farm/alice".to_string(),
                secret: "abc123".to_string(),
            },
        }
    );
}

#[test]
fn every_launch_gets_a_secret_of_its_own() {
    let settings = Settings::resolve(None, None, None);
    let token = token_for("alice");
    let mut seen: HashSet<String> = HashSet::new();
    let mut trial: u32 = 0;
    while trial < 100 {
        match step(&settings, LaunchState::ValidatingToken, request(&token)).1 {
            Action::Run { request: RuntimeRequest::Launch { secret, .. } } => {
                assert!(seen.insert(secret));
            }
            other => panic!("no launch: {:?}", other),
        }
        trial += 1;
    }
}

#[test]
fn malformed_token_is_refused_before_any_runtime_call() {
    let settings = Settings::resolve(None, None, None);
    for token in ["", "a.b", "h.!!.s", "h.e30.s", "a.b.c.d"] {
        assert_eq!(
            step(&settings, LaunchState::ValidatingToken, request(token)),
            rejected(WorkspaceError::InvalidToken)
        );
    }
    let mut runtime = FakeRuntime::new();
    assert_eq!(
        drive_launch(&settings, &mut runtime, "not.a.token"),
        LaunchState::Failed { reason: WorkspaceError::InvalidToken }
    );
    assert!(runtime.calls.is_empty());
}

#[test]
fn launch_without_a_request_is_refused() {
    let settings = Settings::resolve(None, None, None);
    assert_eq!(
        step(&settings, LaunchState::ValidatingToken, Event::Proceed),
        rejected(WorkspaceError::InvalidToken)
    );
    assert_eq!(
        step(&settings, LaunchState::ValidatingToken, replied(0, b"")),
        rejected(WorkspaceError::InvalidToken)
    );
}

#[test]
fn failed_launch_is_not_inspected() {
    let settings = Settings::resolve(None, None, None);
    let launching = LaunchState::Launching { name: "vscs-alice".to_string() };
    assert_eq!(
        step(&settings, launching.clone(), replied(125, b"")),
        rejected(WorkspaceError::LaunchError)
    );
    assert_eq!(
        step(&settings, launching.clone(), Event::Reply { reply: RuntimeReply::NotRun }),
        rejected(WorkspaceError::LaunchError)
    );
    assert_eq!(
        step(&settings, launching.clone(), Event::Proceed),
        rejected(WorkspaceError::LaunchError)
    );
    assert_eq!(
        step(&settings, launching, request(&token_for("alice"))),
        rejected(WorkspaceError::LaunchError)
    );
}

#[test]
fn unreadable_inspect_answer_fails_the_launch() {
    let settings = Settings::resolve(None, None, None);
    let inspecting = LaunchState::Inspecting { name: "vscs-alice".to_string() };
    for stdout in [&b""[..], &b"49213"[..], &b"49213 abc 123"[..], &b"\xff\xff"[..]] {
        assert_eq!(
            step(&settings, inspecting.clone(), replied(0, stdout)),
            rejected(WorkspaceError::InspectError)
        );
    }
    assert_eq!(
        step(&settings, inspecting.clone(), replied(1, b"49213 abc123")),
        rejected(WorkspaceError::InspectError)
    );
    assert_eq!(
        step(&settings, inspecting, Event::Proceed),
        rejected(WorkspaceError::InspectError)
    );
}

#[test]
fn invalid_redirect_address_fails_the_launch() {
    let settings = Settings::resolve(None, Some("http://local host:{port}/".to_string()), None);
    let building = LaunchState::BuildingURL {
        endpoint: ContainerEndpoint { host_port: "49213".to_string(), secret: "abc123".to_string() },
    };
    assert_eq!(
        step(&settings, building, Event::Proceed),
        rejected(WorkspaceError::URLBuildError)
    );
}

#[test]
fn finished_launch_stays_as_it_is() {
    let settings = Settings::resolve(None, None, None);
    let done = LaunchState::Done { url: "http://localhost:1/".to_string() };
    for event in [Event::Proceed, replied(1, b""), request("x")] {
        assert_eq!(
            step(&settings, done.clone(), event),
            (done.clone(), Action::Redirect { url: "http://localhost:1/".to_string() })
        );
    }
    for reason in [
        WorkspaceError::InvalidToken,
        WorkspaceError::LaunchError,
        WorkspaceError::InspectError,
        WorkspaceError::URLBuildError,
    ] {
        for event in [Event::Proceed, replied(0, b"49213 abc123"), request(&token_for("alice"))] {
            assert_eq!(
                step(&settings, LaunchState::Failed { reason }, event),
                rejected(reason)
            );
        }
    }
}

#[test]
fn container_stays_up_when_inspect_fails() {
    let settings = Settings::resolve(None, None, None);
    let mut runtime = FakeRuntime::new();
    let mut state = LaunchState::ValidatingToken;
    let mut event = request(&token_for("alice"));
    loop {
        let (next, action) = step(&settings, state, event);
        state = next;
        event = match action {
            Action::Run { request: RuntimeRequest::Inspect { name } } => {
                runtime.calls.push(vec!["inspect".to_string(), name]);
                replied(0, b"garbled answer here")
            }
            Action::Run { request } => Event::Reply { reply: runtime.run(&request) },
            Action::Proceed => Event::Proceed,
            _ => break,
        };
    }
    assert_eq!(state, LaunchState::Failed { reason: WorkspaceError::InspectError });
    assert!(runtime.running.contains("vscs-alice"));
    assert!(runtime.calls.iter().all(|call| call[0] != "stop"));
    assert_eq!(runtime.calls.len(), 2);
}

#[test]
fn second_launch_for_the_same_user_fails() {
    let settings = Settings::resolve(None, None, None);
    let mut runtime = FakeRuntime::new();
    let token = token_for("alice");

    // Both requests pass validation before either reaches the runtime.
    let (first_state, first_action) = step(&settings, LaunchState::ValidatingToken, request(&token));
    let (second_state, second_action) = step(&settings, LaunchState::ValidatingToken, request(&token));
    assert_eq!(first_state, second_state);
    let first_reply = match &first_action {
        Action::Run { request } => runtime.run(request),
        other => panic!("no launch: {:?}", other),
    };
    let second_reply = match &second_action {
        Action::Run { request } => runtime.run(request),
        other => panic!("no launch: {:?}", other),
    };
    let (first_state, _) = step(&settings, first_state, Event::Reply { reply: first_reply });
    let (second_state, second_action) = step(&settings, second_state, Event::Reply { reply: second_reply });
    assert_eq!(first_state, LaunchState::Inspecting { name: "vscs-alice".to_string() });
    assert_eq!(second_state, LaunchState::Failed { reason: WorkspaceError::LaunchError });
    assert_eq!(second_action, Action::Reject { reason: WorkspaceError::LaunchError });
    assert_eq!(runtime.running.len(), 1);
}

#[test]
fn launches_for_different_users_do_not_collide() {
    let settings = Settings::resolve(None, None, None);
    let mut runtime = FakeRuntime::new();
    let url = "http://localhost:49213/?tkn=abc123".to_string();
    assert_eq!(
        drive_launch(&settings, &mut runtime, &token_for("alice")),
        LaunchState::Done { url: url.clone() }
    );
    assert_eq!(
        drive_launch(&settings, &mut runtime, &token_for("bob")),
        LaunchState::Done { url }
    );
    assert_eq!(
        drive_launch(&settings, &mut runtime, &token_for("alice")),
        LaunchState::Failed { reason: WorkspaceError::LaunchError }
    );
    assert_eq!(runtime.running.len(), 2);
}

#[test]
fn inspect_after_terminate_fails() {
    let settings = Settings::resolve(None, None, None);
    let mut runtime = FakeRuntime::new();
    let token = token_for("alice");
    assert!(matches!(drive_launch(&settings, &mut runtime, &token), LaunchState::Done { .. }));
    assert_eq!(drive_stop(&mut runtime, &token), StopState::Done);
    let reply = runtime.run(&RuntimeRequest::Inspect { name: "vscs-alice".to_string() });
    assert_eq!(
        step(
            &settings,
            LaunchState::Inspecting { name: "vscs-alice".to_string() },
            Event::Reply { reply }
        ),
        rejected(WorkspaceError::InspectError)
    );
    // The name is free again.
    assert!(matches!(drive_launch(&settings, &mut runtime, &token), LaunchState::Done { .. }));
}

#[test]
fn stop_terminates_the_callers_workspace_only() {
    let mut runtime = FakeRuntime::new();
    let settings = Settings::resolve(None, None, None);
    assert!(matches!(
        drive_launch(&settings, &mut runtime, &token_for("alice")),
        LaunchState::Done { .. }
    ));
    assert!(matches!(
        drive_launch(&settings, &mut runtime, &token_for("bob")),
        LaunchState::Done { .. }
    ));

    let (state, action) = stop_step(StopState::ValidatingToken, request(&token_for("alice")));
    assert_eq!(state, StopState::Terminating { name: "vscs-alice".to_string() });
    assert_eq!(
        action,
        Action::Run { request: RuntimeRequest::Terminate { name: "vscs-alice".to_string() } }
    );
    let reply = match &action {
        Action::Run { request } => {
            assert_eq!(request.arguments(), vec!["stop", "vscs-alice"]);
            runtime.run(request)
        }
        other => panic!("no termination: {:?}", other),
    };
    assert_eq!(
        stop_step(state, Event::Reply { reply }),
        (StopState::Done, Action::Acknowledge)
    );
    assert!(!runtime.running.contains("vscs-alice"));
    assert!(runtime.running.contains("vscs-bob"));
}

#[test]
fn stop_names_the_container_after_the_caller() {
    // A stop that named a fixed container, such as `vscs-user_id`, would
    // stop the same one for every caller. The name follows the token.
    assert_eq!(terminate("alice"), RuntimeRequest::Terminate { name: "vscs-alice".to_string() });
    assert_ne!(terminate("alice"), RuntimeRequest::Terminate { name: "vscs-user_id".to_string() });
    assert_ne!(terminate("alice"), terminate("bob"));
    assert_eq!(
        terminate("user_id"),
        RuntimeRequest::Terminate { name: "vscs-user_id".to_string() }
    );
}

#[test]
fn stop_of_a_workspace_that_does_not_run_fails() {
    let mut runtime = FakeRuntime::new();
    assert_eq!(
        drive_stop(&mut runtime, &token_for("alice")),
        StopState::Failed { reason: WorkspaceError::TerminateError }
    );
    assert_eq!(runtime.calls, vec![vec!["stop".to_string(), "vscs-alice".to_string()]]);
    let terminating = StopState::Terminating { name: "vscs-alice".to_string() };
    assert_eq!(
        stop_step(terminating.clone(), replied(1, b"")),
        stop_rejected(WorkspaceError::TerminateError)
    );
    assert_eq!(
        stop_step(terminating.clone(), Event::Reply { reply: RuntimeReply::NotRun }),
        stop_rejected(WorkspaceError::TerminateError)
    );
    assert_eq!(
        stop_step(terminating, Event::Proceed),
        stop_rejected(WorkspaceError::TerminateError)
    );
}

#[test]
fn stop_needs_a_well_formed_token() {
    let mut runtime = FakeRuntime::new();
    assert_eq!(
        drive_stop(&mut runtime, "no token"),
        StopState::Failed { reason: WorkspaceError::InvalidToken }
    );
    assert!(runtime.calls.is_empty());
    assert_eq!(
        stop_step(StopState::ValidatingToken, Event::Proceed),
        stop_rejected(WorkspaceError::InvalidToken)
    );
}

#[test]
fn finished_stop_stays_as_it_is() {
    assert_eq!(stop_step(StopState::Done, Event::Proceed), (StopState::Done, Action::Acknowledge));
    assert_eq!(
        stop_step(StopState::Done, request(&token_for("alice"))),
        (StopState::Done, Action::Acknowledge)
    );
    assert_eq!(
        stop_step(StopState::Failed { reason: WorkspaceError::TerminateError }, replied(0, b"")),
        stop_rejected(WorkspaceError::TerminateError)
    );
}
