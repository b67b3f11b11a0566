use livebox::builder::ClientBuilder;
use livebox::client::{LoginAttempt, LogoutOutcome};
use livebox::error::{AuthError, NatError, RpcError};
use livebox::forwarding::{Protocol, SetPortFowardingParams};
use livebox::http::HttpRequest;
use livebox::invocation::{Command, Event, Failure, Invocation, Next};
use livebox::json::Json;
use livebox::reply::Reply;
use livebox::workflow::RuleAction;

const LOGIN_BODY: &str =
    "{\"status\":0,\"data\":{\"contextID\":\"dummy-context\",\"groups\":\"g\",\"username\":\"admin\"}}";

const LISTING: &str = "{\"status\":true,\"data\":{\"ssh\":{\"Id\":\"ssh\",\"Origin\":\"webui\",\"Description\":\"shell\",\"SourceInterface\":\"data\",\"Protocol\":\"6\",\"ExternalPort\":\"2222\",\"InternalPort\":\"22\",\"DestinationIPAddress\":\"192.168.1.10\",\"Enable\":false}}}";

const LOGOUT_BODY: &str = "{\"method\":\"releaseContext\",\"parameters\":{\"application_name\":\"livebox-cli\"},\"service\":\"sah.Device.Information\"}";

fn login() -> LoginAttempt {
    ClientBuilder::default()
        .with_base_url("http://box".to_string())
        .with_credentials("admin".to_string(), "secret".to_string())
        .build()
        .unwrap()
}

fn reply(status: u16, body: &str) -> Event {
    Event::Reply(Reply::read(status, body))
}

fn following(next: Next) -> (Invocation, HttpRequest) {
    match next {
        Next::Send { invocation, request } => (invocation, request),
        Next::Done { result, logout } => panic!("the run ended early: {:?} {:?}", result, logout),
    }
}

fn logged_in(command: Command) -> (Invocation, HttpRequest) {
    let (run, _) = Invocation::start(login(), command);
    following(run.step(reply(200, LOGIN_BODY)))
}

fn exec() -> Command {
    Command::Exec { service: "NMC".to_string(), method: "getWANStatus".to_string() }
}

#[test]
fn run_starts_with_the_login() {
    let (_, request) = Invocation::start(login(), exec());
    assert_eq!(request, login().request());
    assert_eq!(request.header("authorization"), Some(&"X-Sah-Login".to_string()));
}

#[test]
fn failed_login_ends_the_run_without_call_or_logout() {
    let (run, _) = Invocation::start(login(), exec());
    assert_eq!(
        run.step(reply(401, "no")),
        Next::Done {
            result: Err(Failure::Auth(AuthError::Rejected { status: 401, body: "no".to_string() })),
            logout: None,
        }
    );
    let (run, _) = Invocation::start(login(), exec());
    assert_eq!(
        run.step(reply(200, "{}")),
        Next::Done {
            result: Err(Failure::Auth(AuthError::Malformed { body: "{}".to_string() })),
            logout: None,
        }
    );
    let (run, _) = Invocation::start(login(), exec());
    assert_eq!(
        run.step(Event::Failure("connection refused".to_string())),
        Next::Done {
            result: Err(Failure::Transport("connection refused".to_string())),
            logout: None,
        }
    );
}

#[test]
fn exec_run_calls_then_logs_out_then_yields_the_data() {
    let (run, request) = logged_in(exec());
    assert_eq!(request.header("x-context"), Some(&"dummy-context".to_string()));
    assert_eq!(request.body, "{\"method\":\"getWANStatus\",\"parameters\":{},\"service\":\"NMC\"}");

    let (run, request) =
        following(run.step(reply(200, "{\"status\":true,\"data\":{\"IPAddress\":\"55.27.2.115\"}}")));
    assert_eq!(request.body, LOGOUT_BODY);
    assert_eq!(
        request.header("authorization"),
        Some(&"X-Sah-Logout dummy-context".to_string())
    );

    assert_eq!(
        run.step(reply(401, "")),
        Next::Done {
            result: Ok(Json::parse("{\"IPAddress\":\"55.27.2.115\"}").unwrap()),
            logout: Some(LogoutOutcome::Expired),
        }
    );
}

#[test]
fn login_followed_at_once_by_logout_does_not_fail_on_401() {
    let (run, _) = logged_in(exec());
    let (run, _) = following(run.step(reply(200, "{\"status\":true}")));
    assert_eq!(
        run.step(reply(401, "{\"status\":401,\"errors\":[]}")),
        Next::Done { result: Ok(Json::Null), logout: Some(LogoutOutcome::Expired) }
    );
}

#[test]
fn logout_never_changes_the_result() {
    for (event, logout) in [
        (reply(200, "{\"status\":1}"), Some(LogoutOutcome::Released)),
        (reply(200, "{\"status\":0}"), Some(LogoutOutcome::Unconfirmed)),
        (reply(500, "oops"), Some(LogoutOutcome::Unconfirmed)),
        (reply(401, "oops"), Some(LogoutOutcome::Expired)),
        (Event::Failure("timeout".to_string()), Some(LogoutOutcome::Unconfirmed)),
    ] {
        let (run, _) = logged_in(exec());
        let (run, _) = following(run.step(reply(200, "{\"status\":true,\"data\":7}")));
        assert_eq!(run.step(event), Next::Done { result: Ok(Json::Int(7)), logout });
    }
}

#[test]
fn failed_command_still_logs_out() {
    let (run, _) = logged_in(exec());
    let (run, request) = following(run.step(reply(500, "broken")));
    assert_eq!(request.body, LOGOUT_BODY);
    assert_eq!(
        run.step(reply(401, "")),
        Next::Done {
            result: Err(Failure::Rpc(RpcError::Failed { status: 500, body: "broken".to_string() })),
            logout: Some(LogoutOutcome::Expired),
        }
    );

    let (run, _) = logged_in(exec());
    let (run, request) = following(run.step(Event::Failure("reset".to_string())));
    assert_eq!(request.body, LOGOUT_BODY);
    assert_eq!(
        run.step(reply(200, "{\"status\":1}")),
        Next::Done {
            result: Err(Failure::Transport("reset".to_string())),
            logout: Some(LogoutOutcome::Released),
        }
    );
}

#[test]
fn list_run_yields_the_rules_as_an_array() {
    let (run, request) = logged_in(Command::List);
    assert_eq!(
        request.body,
        "{\"method\":\"getPortForwarding\",\"parameters\":{},\"service\":\"Firewall\"}"
    );
    let (run, _) = following(run.step(reply(200, LISTING)));
    match run.step(reply(401, "")) {
        Next::Done { result: Ok(Json::Array(items)), logout: Some(LogoutOutcome::Expired) } => {
            assert_eq!(items.len(), 1);
            assert_eq!(items[0].text_of("Id"), Some("ssh".to_string()));
            assert_eq!(items[0].bool_of("Enable"), Some(false));
        }
        other => panic!("unexpected end: {:?}", other),
    }
}

#[test]
fn list_run_with_a_malformed_listing_fails_and_logs_out() {
    let (run, _) = logged_in(Command::List);
    let (run, request) = following(run.step(reply(200, "{\"status\":true,\"data\":[]}")));
    assert_eq!(request.body, LOGOUT_BODY);
    assert_eq!(
        run.step(reply(401, "")),
        Next::Done {
            result: Err(Failure::Rpc(RpcError::Malformed {
                body: "{\"status\":true,\"data\":[]}".to_string()
            })),
            logout: Some(LogoutOutcome::Expired),
        }
    );
}

#[test]
fn add_run_stores_the_rule_and_does_not_commit() {
    let params = SetPortFowardingParams::new(
        "web".to_string(),
        "Web".to_string(),
        Protocol::TCP,
        "8080".to_string(),
        "80".to_string(),
        "192.168.1.20".to_string(),
    );
    let (run, request) = logged_in(Command::Add(params));
    assert!(request.body.starts_with("{\"method\":\"setPortForwarding\""));
    let (run, request) = following(run.step(reply(200, "{\"status\":\"web\",\"data\":\"web\"}")));
    assert_eq!(request.body, LOGOUT_BODY);
    assert_eq!(
        run.step(reply(401, "")),
        Next::Done {
            result: Ok(Json::Text("web".to_string())),
            logout: Some(LogoutOutcome::Expired),
        }
    );
}

#[test]
fn change_run_lists_changes_commits_and_logs_out() {
    let (run, request) =
        logged_in(Command::Change { action: RuleAction::Enable, id: "ssh".to_string() });
    assert!(request.body.contains("getPortForwarding"));
    let (run, request) = following(run.step(reply(200, LISTING)));
    assert!(request.body.contains("setPortForwarding"));
    assert!(request.body.contains("\"enable\":true"));
    let (run, request) = following(run.step(reply(200, "{\"status\":true}")));
    assert!(request.body.contains("\"method\":\"commit\""));
    let (run, request) = following(run.step(reply(200, "{\"status\":true,\"data\":true}")));
    assert_eq!(request.body, LOGOUT_BODY);
    assert_eq!(
        run.step(reply(401, "")),
        Next::Done { result: Ok(Json::Bool(true)), logout: Some(LogoutOutcome::Expired) }
    );
}

#[test]
fn change_run_for_an_unlisted_rule_goes_straight_to_the_logout() {
    for action in [RuleAction::Enable, RuleAction::Disable, RuleAction::Remove] {
        let (run, _) = logged_in(Command::Change { action, id: "absent".to_string() });
        let (run, request) = following(run.step(reply(200, LISTING)));
        assert_eq!(request.body, LOGOUT_BODY);
        let failure = Failure::Nat(NatError::RuleNotFound("absent".to_string()));
        assert_eq!(failure.message(), "Rule not found: absent");
        assert_eq!(
            run.step(reply(401, "")),
            Next::Done { result: Err(failure), logout: Some(LogoutOutcome::Expired) }
        );
    }
}

#[test]
fn change_run_whose_transport_fails_midway_logs_out() {
    let (run, _) = logged_in(Command::Change { action: RuleAction::Remove, id: "ssh".to_string() });
    let (run, _) = following(run.step(reply(200, LISTING)));
    let (run, request) = following(run.step(Event::Failure("broken pipe".to_string())));
    assert_eq!(request.body, LOGOUT_BODY);
    assert_eq!(
        run.step(Event::Failure("broken pipe".to_string())),
        Next::Done {
            result: Err(Failure::Transport("broken pipe".to_string())),
            logout: Some(LogoutOutcome::Unconfirmed),
        }
    );
}

#[test]
fn failure_messages_are_those_of_their_causes() {
    assert_eq!(
        Failure::Auth(AuthError::Rejected { status: 403, body: "x".to_string() }).message(),
        "Authentication failed: 403 Forbidden\nResponse body: x"
    );
    assert_eq!(
        Failure::Rpc(RpcError::Malformed { body: "x".to_string() }).message(),
        "Execution failed: malformed response\nResponse body: x"
    );
    assert_eq!(Failure::Transport("dns error".to_string()).message(), "dns error");
}
