use livebox::builder::ClientBuilder;
use livebox::client::{Client, LoginAttempt, LogoutOutcome};
use livebox::envelope::{logout_request, GenericRequest, LoginRequest, Parameter};
use livebox::error::{AuthError, RpcError};
use livebox::http::{status_text, Header, HttpRequest};
use livebox::json::{Json, Member};
use livebox::output::{output, payload_document};
use livebox::reply::{GenericResponse, LoginContext, LoginResponse, Reply};

const LOGIN_BODY: &str =
    "{\"status\":0,\"data\":{\"contextID\":\"dummy-context\",\"groups\":\"http,admin\",\"username\":\"admin\"}}";

fn header(name: &str, value: &str) -> Header {
    Header { name: name.to_string(), value: value.to_string() }
}

fn logged_in() -> Client {
    Client::login("http://livebox.home/ws".to_string(), &Reply::read(200, LOGIN_BODY)).unwrap()
}

#[test]
fn login_request_carries_the_login_marker_and_no_context() {
    let login = LoginAttempt {
        base_url_ws: "http://livebox.home/ws".to_string(),
        username: "admin".to_string(),
        password: "secret".to_string(),
        allow_insecure_tls: false,
    };
    let request = login.request();
    assert_eq!(
        request,
        HttpRequest {
            url: "http://livebox.home/ws".to_string(),
            headers: vec![
                header("content-type", "application/x-sah-ws-4-call+json"),
                header("authorization", "X-Sah-Login"),
            ],
            body: "{\"method\":\"createContext\",\"parameters\":{\"applicationName\":\"livebox-cli\",\"password\":\"secret\",\"username\":\"admin\"},\"service\":\"sah.Device.Information\"}".to_string(),
        }
    );
    assert_eq!(request.header("x-context"), None);
    assert_eq!(request.header("authorization"), Some(&"X-Sah-Login".to_string()));
}

#[test]
fn login_request_follows_from_the_builder() {
    let login = ClientBuilder::default()
        .with_base_url("http://192.168.1.1/".to_string())
        .with_credentials("admin".to_string(), "pw".to_string())
        .build()
        .unwrap();
    let request = login.request();
    assert_eq!(request.url, "http://192.168.1.1/ws");
    let body = Json::parse(&request.body).unwrap();
    let parameters = body.get("parameters").unwrap();
    assert_eq!(parameters.text_of("username"), Some("admin".to_string()));
    assert_eq!(parameters.text_of("password"), Some("pw".to_string()));
    assert_eq!(parameters.text_of("applicationName"), Some("livebox-cli".to_string()));
    assert_eq!(parameters.get("application_name"), None);
}

#[test]
fn login_request_shape_names_service_method_and_parameters() {
    let request = LoginRequest::new("u".to_string(), "p".to_string());
    assert_eq!(request.service, "sah.Device.Information");
    assert_eq!(request.method, "createContext");
    assert_eq!(request.parameters.application_name, "livebox-cli");
    assert_eq!(request.parameters.username, "u");
    assert_eq!(request.parameters.password, "p");
    assert_eq!(
        request.to_json(),
        Json::Object(vec![
            Member { name: "service".to_string(), value: Json::Text("sah.Device.Information".to_string()) },
            Member { name: "method".to_string(), value: Json::Text("createContext".to_string()) },
            Member {
                name: "parameters".to_string(),
                value: Json::Object(vec![
                    Member { name: "applicationName".to_string(), value: Json::Text("livebox-cli".to_string()) },
                    Member { name: "username".to_string(), value: Json::Text("u".to_string()) },
                    Member { name: "password".to_string(), value: Json::Text("p".to_string()) },
                ]),
            },
        ])
    );
}

#[test]
fn generic_request_starts_without_parameters() {
    let request = GenericRequest::new("NMC", "getWANStatus");
    assert_eq!(request.service, "NMC");
    assert_eq!(request.method, "getWANStatus");
    assert_eq!(request.parameters, vec![]);
    assert_eq!(
        request.to_json().to_compact(),
        "{\"method\":\"getWANStatus\",\"parameters\":{},\"service\":\"NMC\"}"
    );
}

#[test]
fn generic_request_takes_string_parameters_in_order() {
    let request = GenericRequest::new("S", "m").with_parameter("b", "1").with_parameter("a", "2");
    assert_eq!(
        request.parameters,
        vec![
            Parameter { name: "b".to_string(), value: "1".to_string() },
            Parameter { name: "a".to_string(), value: "2".to_string() },
        ]
    );
    assert_eq!(
        request.to_json().to_compact(),
        "{\"method\":\"m\",\"parameters\":{\"a\":\"2\",\"b\":\"1\"},\"service\":\"S\"}"
    );
}

#[test]
fn logout_request_shape_spells_application_name_with_an_underscore() {
    let request = logout_request();
    assert_eq!(request.service, "sah.Device.Information");
    assert_eq!(request.method, "releaseContext");
    assert_eq!(
        request.parameters,
        vec![Parameter { name: "application_name".to_string(), value: "livebox-cli".to_string() }]
    );
}

#[test]
fn login_extracts_the_context_token() {
    let client = logged_in();
    assert_eq!(client.context_id(), "dummy-context");
    assert_eq!(client.base_url_ws(), "http://livebox.home/ws");
}

#[test]
fn login_rejected_by_status_carries_status_and_body() {
    let outcome = Client::login("http://box/ws".to_string(), &Reply::read(401, "denied"));
    assert_eq!(
        outcome,
        Err(AuthError::Rejected { status: 401, body: "denied".to_string() })
    );
    assert_eq!(
        outcome.unwrap_err().message(),
        "Authentication failed: 401 Unauthorized\nResponse body: denied"
    );
}

#[test]
fn login_rejected_even_when_the_body_is_a_login_response() {
    let outcome = Client::login("http://box/ws".to_string(), &Reply::read(500, LOGIN_BODY));
    assert_eq!(
        outcome,
        Err(AuthError::Rejected { status: 500, body: LOGIN_BODY.to_string() })
    );
    let outcome = Client::login("http://box/ws".to_string(), &Reply::read(199, LOGIN_BODY));
    assert!(matches!(outcome, Err(AuthError::Rejected { status: 199, .. })));
    let outcome = Client::login("http://box/ws".to_string(), &Reply::read(300, LOGIN_BODY));
    assert!(matches!(outcome, Err(AuthError::Rejected { status: 300, .. })));
    assert!(Client::login("http://box/ws".to_string(), &Reply::read(299, LOGIN_BODY)).is_ok());
}

#[test]
fn login_with_a_body_that_is_not_json_is_malformed() {
    let outcome = Client::login("http://box/ws".to_string(), &Reply::read(200, "<html>"));
    assert_eq!(outcome, Err(AuthError::Malformed { body: "<html>".to_string() }));
    assert_eq!(
        outcome.unwrap_err().message(),
        "Authentication failed: malformed response\nResponse body: <html>"
    );
}

#[test]
fn login_with_a_body_that_lacks_a_field_is_malformed() {
    for body in [
        "{\"status\":0,\"data\":{\"groups\":\"g\",\"username\":\"u\"}}",
        "{\"status\":0,\"data\":{\"contextID\":\"c\",\"username\":\"u\"}}",
        "{\"status\":0,\"data\":{\"contextID\":\"c\",\"groups\":\"g\"}}",
        "{\"data\":{\"contextID\":\"c\",\"groups\":\"g\",\"username\":\"u\"}}",
        "{\"status\":true,\"data\":{\"contextID\":\"c\",\"groups\":\"g\",\"username\":\"u\"}}",
        "{\"status\":0.5,\"data\":{\"contextID\":\"c\",\"groups\":\"g\",\"username\":\"u\"}}",
        "{\"status\":0,\"data\":{\"contextID\":7,\"groups\":\"g\",\"username\":\"u\"}}",
        "{\"status\":0}",
        "{\"status\":0,\"data\":null}",
        "[]",
        "null",
    ] {
        let outcome = Client::login("http://box/ws".to_string(), &Reply::read(200, body));
        assert_eq!(outcome, Err(AuthError::Malformed { body: body.to_string() }));
    }
}

#[test]
fn login_response_reads_all_fields() {
    let doc = Json::parse(LOGIN_BODY).unwrap();
    assert_eq!(
        LoginResponse::from_json(&doc),
        Some(LoginResponse {
            data: LoginContext {
                context_id: "dummy-context".to_string(),
                groups: "http,admin".to_string(),
                username: "admin".to_string(),
            },
            status: 0,
        })
    );
}

#[test]
fn execute_request_attaches_the_context_header() {
    let client = logged_in();
    let request = client.execute("NMC".to_string(), "getWANStatus".to_string());
    assert_eq!(
        request,
        HttpRequest {
            url: "http://livebox.home/ws".to_string(),
            headers: vec![
                header("accept", "application/x-sah-ws-4-call+json"),
                header("x-context", "dummy-context"),
                header("content-type", "application/x-sah-ws-4-call+json"),
            ],
            body: "{\"method\":\"getWANStatus\",\"parameters\":{},\"service\":\"NMC\"}".to_string(),
        }
    );
    assert_eq!(request.header("x-context"), Some(&"dummy-context".to_string()));
    assert_eq!(request.header("authorization"), None);
}

#[test]
fn execute_returns_the_data_object_unmodified() {
    let body = "{\"data\":{\"IPAddress\":\"55.27.2.115\",\"LinkState\":\"up\",\"Nested\":{\"n\":[1,2.5,null]}},\"status\":true}";
    let payload = Reply::read(200, body).payload();
    let expected = Json::parse(
        "{\"IPAddress\":\"55.27.2.115\",\"LinkState\":\"up\",\"Nested\":{\"n\":[1,2.5,null]}}",
    )
    .unwrap();
    assert_eq!(payload, Ok(Some(expected)));
}

#[test]
fn payload_tells_absent_data_from_null_data() {
    assert_eq!(Reply::read(200, "{\"status\":true}").payload(), Ok(None));
    assert_eq!(Reply::read(200, "{\"status\":true,\"data\":null}").payload(), Ok(Some(Json::Null)));
}

#[test]
fn payload_of_a_failed_call_carries_status_and_body() {
    let payload = Reply::read(500, "{\"status\":true,\"data\":1}").payload();
    assert_eq!(
        payload,
        Err(RpcError::Failed { status: 500, body: "{\"status\":true,\"data\":1}".to_string() })
    );
    assert_eq!(
        payload.unwrap_err().message(),
        "Execution failed: 500 Internal Server Error\nResponse body: {\"status\":true,\"data\":1}"
    );
}

#[test]
fn payload_of_a_body_that_is_no_envelope_is_malformed() {
    for body in ["not json", "{\"data\":1}", "[1]", "\"status\""] {
        let payload = Reply::read(200, body).payload();
        assert_eq!(payload, Err(RpcError::Malformed { body: body.to_string() }));
    }
    assert_eq!(
        RpcError::Malformed { body: "x".to_string() }.message(),
        "Execution failed: malformed response\nResponse body: x"
    );
}

#[test]
fn envelope_status_may_be_of_any_kind() {
    let doc = Json::parse("{\"status\":{\"a\":1},\"data\":[1]}").unwrap();
    assert_eq!(
        GenericResponse::from_json(&doc),
        Some(GenericResponse {
            status: Json::Object(vec![Member { name: "a".to_string(), value: Json::Int(1) }]),
            data: Some(Json::Array(vec![Json::Int(1)])),
        })
    );
    assert_eq!(GenericResponse::from_json(&Json::Null), None);
}

#[test]
fn reply_keeps_status_and_body_and_reads_the_document() {
    let reply = Reply::read(200, "{\"a\":1}");
    assert_eq!(reply.status, 200);
    assert_eq!(reply.body, "{\"a\":1}");
    assert_eq!(
        reply.document,
        Some(Json::Object(vec![Member { name: "a".to_string(), value: Json::Int(1) }]))
    );
    assert!(reply.is_success());
    let reply = Reply::read(404, "nope");
    assert_eq!(reply.document, None);
    assert!(!reply.is_success());
}

#[test]
fn logout_request_carries_the_logout_marker_and_the_token() {
    let request = logged_in().logout();
    assert_eq!(
        request,
        HttpRequest {
            url: "http://livebox.home/ws".to_string(),
            headers: vec![
                header("accept", "application/x-sah-ws-4-call+json"),
                header("x-context", "dummy-context"),
                header("content-type", "application/json"),
                header("authorization", "X-Sah-Logout dummy-context"),
            ],
            body: "{\"method\":\"releaseContext\",\"parameters\":{\"application_name\":\"livebox-cli\"},\"service\":\"sah.Device.Information\"}".to_string(),
        }
    );
}

#[test]
fn login_then_logout_with_401_is_no_error() {
    let client = logged_in();
    let _request = client.logout();
    assert_eq!(Client::logout_outcome(&Reply::read(401, "")), LogoutOutcome::Expired);
    assert_eq!(
        Client::logout_outcome(&Reply::read(401, "{\"status\":0}")),
        LogoutOutcome::Expired
    );
    assert_eq!(
        Client::logout_outcome(&Reply::read(401, "{\"status\":1}")),
        LogoutOutcome::Expired
    );
}

#[test]
fn logout_confirmed_by_status_one_is_released() {
    assert_eq!(
        Client::logout_outcome(&Reply::read(200, "{\"status\":1}")),
        LogoutOutcome::Released
    );
    assert_eq!(
        Client::logout_outcome(&Reply::read(500, "{\"status\":1,\"data\":null}")),
        LogoutOutcome::Released
    );
}

#[test]
fn logout_neither_401_nor_status_one_is_unconfirmed() {
    for (status, body) in [
        (200, "{\"status\":0}"),
        (200, "{\"status\":true}"),
        (200, "{\"status\":1.0}"),
        (200, "{\"status\":\"1\"}"),
        (200, "{\"data\":{}}"),
        (200, ""),
        (403, "forbidden"),
        (500, "{\"status\":2}"),
    ] {
        assert_eq!(
            Client::logout_outcome(&Reply::read(status, body)),
            LogoutOutcome::Unconfirmed
        );
    }
}

#[test]
fn exec_after_login_attaches_the_context_and_prints_the_data_as_it_came() {
    let login = ClientBuilder::default()
        .with_base_url("http://mock.device/".to_string())
        .with_credentials("admin".to_string(), "secret".to_string())
        .build()
        .unwrap();
    assert_eq!(login.request().header("x-context"), None);
    let client = Client::login(login.base_url_ws, &Reply::read(200, LOGIN_BODY)).unwrap();

    let request = client.execute("NMC".to_string(), "getWANStatus".to_string());
    assert_eq!(request.url, "http://mock.device/ws");
    assert_eq!(request.header("x-context"), Some(&"dummy-context".to_string()));

    let reply = Reply::read(
        200,
        "{\"data\":{\"IPAddress\":\"55.27.2.115\",\"LinkState\":\"up\"},\"status\":true}",
    );
    let data = payload_document(reply.payload().unwrap());
    assert_eq!(
        output(&data, None, false),
        Ok("{\n  \"IPAddress\": \"55.27.2.115\",\n  \"LinkState\": \"up\"\n}".to_string())
    );
}

#[test]
fn status_is_shown_with_its_reason() {
    assert_eq!(status_text(200), "200 OK");
    assert_eq!(status_text(401), "401 Unauthorized");
    assert_eq!(status_text(404), "404 Not Found");
    assert_eq!(status_text(100), "100 Continue");
    assert_eq!(status_text(999), "999 <unknown status code>");
    assert_eq!(status_text(299), "299 <unknown status code>");
}

#[test]
fn status_that_is_no_http_code_is_shown_as_a_number() {
    assert_eq!(status_text(0), "0");
    assert_eq!(status_text(99), "99");
    assert_eq!(status_text(1000), "1000");
    assert_eq!(status_text(u16::MAX), "65535");
    assert_eq!(
        AuthError::Rejected { status: 99, body: "x".to_string() }.message(),
        "Authentication failed: 99\nResponse body: x"
    );
}

#[test]
fn login_takes_the_context_token_as_it_is() {
    let body = "{\"status\":0,\"data\":{\"contextID\":\"a\\nb\",\"groups\":\"g\",\"username\":\"u\"}}";
    let client = Client::login("http://box/ws".to_string(), &Reply::read(200, body)).unwrap();
    assert_eq!(client.context_id(), "a\nb");
    assert_eq!(client.logout().header("authorization"), Some(&"X-Sah-Logout a\nb".to_string()));
}

#[test]
fn setting_a_parameter_again_replaces_it_in_its_place() {
    let request = GenericRequest::new("S", "m")
        .with_parameter("a", "1")
        .with_parameter("b", "2")
        .with_parameter("a", "3");
    assert_eq!(
        request.parameters,
        vec![
            Parameter { name: "a".to_string(), value: "3".to_string() },
            Parameter { name: "b".to_string(), value: "2".to_string() },
        ]
    );
    assert_eq!(
        request.to_json().to_compact(),
        "{\"method\":\"m\",\"parameters\":{\"a\":\"3\",\"b\":\"2\"},\"service\":\"S\"}"
    );
}
