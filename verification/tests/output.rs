use livebox::error::QueryError;
use livebox::codec::{has_open_escape, is_path};
use livebox::json::Json;
use livebox::reply::Reply;
use livebox::output::{exactly_one, output, payload_document, render, render_selection};

const BODY: &str = "{\"data\":{\"IPAddress\":\"55.27.2.115\",\"LinkState\":\"up\",\"Ports\":[1,2]},\"status\":true}";

fn body() -> Json {
    Json::parse(BODY).unwrap()
}

#[test]
fn query_for_the_address_in_a_whole_body_prints_the_quoted_string() {
    assert_eq!(
        output(&body(), Some("$.data.IPAddress"), false),
        Ok("\"55.27.2.115\"".to_string())
    );
}

#[test]
fn query_for_the_address_in_a_whole_body_with_raw_prints_the_bare_text() {
    assert_eq!(output(&body(), Some("$.data.IPAddress"), true), Ok("55.27.2.115".to_string()));
}

#[test]
fn query_that_matches_one_node_prints_it_as_pretty_json() {
    assert_eq!(
        output(&body(), Some("$.data"), false),
        Ok("{\n  \"IPAddress\": \"55.27.2.115\",\n  \"LinkState\": \"up\",\n  \"Ports\": [\n    1,\n    2\n  ]\n}".to_string())
    );
    assert_eq!(output(&body(), Some("$.data.Ports[1]"), false), Ok("2".to_string()));
    assert_eq!(output(&body(), Some("$.status"), false), Ok("true".to_string()));
}

#[test]
fn raw_changes_nothing_for_a_match_that_is_no_string() {
    assert_eq!(output(&body(), Some("$.status"), true), Ok("true".to_string()));
    assert_eq!(
        output(&body(), Some("$.data.Ports"), true),
        Ok("[\n  1,\n  2\n]".to_string())
    );
}

#[test]
fn query_that_matches_nothing_fails() {
    assert_eq!(output(&body(), Some("$.data.Missing"), false), Err(QueryError::NoMatch));
    assert_eq!(output(&body(), Some("$.IPAddress"), true), Err(QueryError::NoMatch));
    assert_eq!(QueryError::NoMatch.message(), "No match for given JsonPath");
}

#[test]
fn query_that_matches_several_nodes_fails_and_picks_none() {
    assert_eq!(
        output(&body(), Some("$.data.Ports[*]"), false),
        Err(QueryError::Ambiguous { count: 2 })
    );
    assert_eq!(output(&body(), Some("$.data.*"), true), Err(QueryError::Ambiguous { count: 3 }));
    assert_eq!(
        QueryError::Ambiguous { count: 3 }.message(),
        "No single match for given JsonPath: 3"
    );
}

#[test]
fn query_that_is_no_path_fails() {
    assert_eq!(output(&body(), Some("data.IPAddress"), false), Err(QueryError::InvalidPath));
    assert_eq!(output(&body(), Some(""), false), Err(QueryError::InvalidPath));
    assert_eq!(QueryError::InvalidPath.message(), "Invalid JsonPath");
}

#[test]
fn without_a_query_the_whole_document_is_printed() {
    let data = Json::parse("{\"IPAddress\":\"55.27.2.115\"}").unwrap();
    assert_eq!(output(&data, None, false), Ok("{\n  \"IPAddress\": \"55.27.2.115\"\n}".to_string()));
    assert_eq!(output(&Json::Text("x".to_string()), None, false), Ok("\"x\"".to_string()));
    assert_eq!(output(&Json::Text("x".to_string()), None, true), Ok("x".to_string()));
}

#[test]
fn absent_data_is_printed_as_null() {
    assert_eq!(payload_document(None), Json::Null);
    assert_eq!(payload_document(Some(Json::Int(1))), Json::Int(1));
    assert_eq!(output(&payload_document(None), None, false), Ok("null".to_string()));
}

#[test]
fn exactly_one_takes_the_only_node() {
    assert_eq!(exactly_one(vec![Json::Int(1)]), Ok(Json::Int(1)));
    assert_eq!(exactly_one(vec![]), Err(QueryError::NoMatch));
    assert_eq!(
        exactly_one(vec![Json::Int(1), Json::Int(1)]),
        Err(QueryError::Ambiguous { count: 2 })
    );
}

#[test]
fn render_unquotes_strings_only_when_raw() {
    let text = Json::Text("a \"b\"".to_string());
    assert_eq!(render(&text, true), "a \"b\"");
    assert_eq!(render(&text, false), "\"a \\\"b\\\"\"");
    assert_eq!(render(&Json::Null, true), "null");
    assert_eq!(render(&Json::Decimal("1.5".to_string()), true), "1.5");
}

#[test]
fn render_selection_tells_the_three_failures_apart() {
    assert_eq!(render_selection(None, false), Err(QueryError::InvalidPath));
    assert_eq!(render_selection(Some(vec![]), false), Err(QueryError::NoMatch));
    assert_eq!(
        render_selection(Some(vec![Json::Null, Json::Null]), false),
        Err(QueryError::Ambiguous { count: 2 })
    );
    assert_eq!(render_selection(Some(vec![Json::Bool(false)]), true), Ok("false".to_string()));
}

#[test]
fn whether_a_query_is_a_path_does_not_depend_on_the_document() {
    for doc in [Json::Null, body(), Json::Array(vec![])] {
        assert_eq!(doc.query("$.a["), None);
        assert!(doc.query("$.a").is_some());
    }
}

#[test]
fn query_on_the_data_of_a_reply_starts_at_the_data() {
    let data = payload_document(Reply::read(200, BODY).payload().unwrap());
    assert_eq!(output(&data, Some("$.IPAddress"), false), Ok("\"55.27.2.115\"".to_string()));
    assert_eq!(output(&data, Some("$.IPAddress"), true), Ok("55.27.2.115".to_string()));
    assert_eq!(output(&data, Some("$.data.IPAddress"), false), Err(QueryError::NoMatch));
}

#[test]
fn query_that_ends_inside_an_escape_is_refused() {
    for path in [
        "$['\\u",
        "$['\\uD",
        "$[\"\\uD83D\\u",
        "$[\"\\uD83D\\uD",
        "$[\"\\uD83D\\ud",
        "$['\\ud",
        "\\u",
        "$[?@.a == '\\u",
    ] {
        assert!(has_open_escape(path));
        assert!(!is_path(path));
        assert_eq!(body().query(path), None);
        assert_eq!(output(&body(), Some(path), false), Err(QueryError::InvalidPath));
    }
}

#[test]
fn query_with_a_whole_escape_is_parsed() {
    let doc = Json::parse("{\"A\":1,\"\u{1F600}\":2,\"u\":3}").unwrap();
    for path in ["$['\\u0041']", "$['\\uD83D\\uDE00']", "$.u", "$['u']", "$['\\u004", "$['\\uD8"] {
        assert!(!has_open_escape(path));
    }
    assert_eq!(doc.query("$['\\u0041']"), Some(vec![Json::Int(1)]));
    assert_eq!(doc.query("$['\\uD83D\\uDE00']"), Some(vec![Json::Int(2)]));
    assert_eq!(doc.query("$.u"), Some(vec![Json::Int(3)]));
    assert_eq!(doc.query("$['\\u004"), None);
    assert_eq!(doc.query("$['\\uD8"), None);
    assert_eq!(doc.query("$['\\uD83D"), None);
    assert_eq!(doc.query("$['\\uD83D\\"), None);
    assert_eq!(doc.query("$['\\"), None);
    assert!(is_path("$['\\u0041']"));
    assert!(!is_path("$['\\u004"));
}
