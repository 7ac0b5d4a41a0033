use aios_sdk::body::{encode_object, join_object};
use aios_sdk::{read_reply, AIOSClient, AgentRunParams};

fn client(base_url: &str, token: Option<&str>) -> AIOSClient {
    AIOSClient::new(base_url, token.map(|t| t.to_string()), reqwest::Client::new())
}

fn params(agent_name: &str, task: &str, session_id: Option<&str>) -> AgentRunParams {
    AgentRunParams {
        agent_name: agent_name.to_string(),
        task: task.to_string(),
        session_id: session_id.map(|s| s.to_string()),
    }
}

fn pair(name: &str, value: &str) -> (String, String) {
    (name.to_string(), value.to_string())
}

#[test]
fn body_without_session_has_two_members() {
    let body = params("researcher", "summarize", None).to_json_body().unwrap();
    assert_eq!(body, r#"{"agentName":"researcher","task":"summarize"}"#);
    assert!(!body.contains("sessionId"));
}

#[test]
fn body_with_session_carries_it() {
    let body = params("researcher", "summarize", Some("s-42")).to_json_body().unwrap();
    assert_eq!(body, r#"{"agentName":"researcher","task":"summarize","sessionId":"s-42"}"#);
}

#[test]
fn body_parses_back_to_the_fields() {
    let body = params("a", "b", Some("c")).to_json_body().unwrap();
    let v: serde_json::Value = serde_json::from_str(&body).unwrap();
    assert_eq!(v["agentName"], "a");
    assert_eq!(v["task"], "b");
    assert_eq!(v["sessionId"], "c");
    let body = params("a", "b", None).to_json_body().unwrap();
    let v: serde_json::Value = serde_json::from_str(&body).unwrap();
    assert!(v.get("sessionId").is_none());
}

#[test]
fn empty_fields_are_sent_as_is() {
    let body = params("", "", None).to_json_body().unwrap();
    assert_eq!(body, r#"{"agentName":"","task":""}"#);
}

#[test]
fn body_values_are_escaped() {
    let body = params("a\\b", "say \"hi\"\n", None).to_json_body().unwrap();
    assert_eq!(body, r#"{"agentName":"a\\b","task":"say \"hi\"\n"}"#);
}

#[test]
fn members_are_renamed_in_order() {
    let m = params("x", "y", Some("z")).members();
    assert_eq!(m, vec![pair("agentName", "x"), pair("task", "y"), pair("sessionId", "z")]);
    let m = params("x", "y", None).members();
    assert_eq!(m, vec![pair("agentName", "x"), pair("task", "y")]);
}

#[test]
fn join_object_of_quoted_members() {
    assert_eq!(join_object(&vec![]), "{}");
    let q = vec![pair("\"k\"", "1"), pair("\"l\"", "[2]")];
    assert_eq!(join_object(&q), r#"{"k":1,"l":[2]}"#);
}

#[test]
fn encode_object_quotes_keys_and_values() {
    let m = vec![pair("k", "v\tw"), pair("n", "")];
    assert_eq!(encode_object(&m).unwrap(), r#"{"k":"v\tw","n":""}"#);
    assert_eq!(encode_object(&vec![]).unwrap(), "{}");
}

#[test]
fn target_is_base_url_and_fixed_path() {
    let c = client("https://example.test", None);
    assert_eq!(c.target_url(), "https://example.test/api/agents/run");
}

#[test]
fn base_url_is_not_checked() {
    let c = client("not a url/", None);
    assert_eq!(c.target_url(), "not a url//api/agents/run");
}

#[test]
fn token_gives_bearer_authorization() {
    let c = client("https://example.test", Some("SECRET-REDACTED"));
    assert_eq!(
        c.request_headers(),
        vec![pair("Content-Type", "application/json"), pair("Authorization", "Bearer SECRET-REDACTED")]
    );
}

#[test]
fn no_token_no_authorization() {
    let c = client("https://example.test", None);
    let h = c.request_headers();
    assert_eq!(h, vec![pair("Content-Type", "application/json")]);
    assert!(h.iter().all(|(n, _)| n != "Authorization"));
}

#[test]
fn agent_request_puts_the_parts_together() {
    let c = client("https://example.test", Some("t0k"));
    let req = c.agent_request(&params("planner", "plan a trip", Some("abc"))).unwrap();
    assert_eq!(req.url, "https://example.test/api/agents/run");
    assert_eq!(
        req.headers,
        vec![pair("Content-Type", "application/json"), pair("Authorization", "Bearer t0k")]
    );
    assert_eq!(req.body, r#"{"agentName":"planner","task":"plan a trip","sessionId":"abc"}"#);
}

#[test]
fn two_requests_on_one_client_do_not_mix() {
    let c = client("https://example.test", None);
    let first = c.agent_request(&params("one", "first task", None)).unwrap();
    let second = c.agent_request(&params("two", "second task", Some("s2"))).unwrap();
    assert_eq!(first.body, r#"{"agentName":"one","task":"first task"}"#);
    assert_eq!(second.body, r#"{"agentName":"two","task":"second task","sessionId":"s2"}"#);
    assert_eq!(first.url, second.url);
}

#[test]
fn error_status_with_json_body_is_returned() {
    let v = read_reply(400, br#"{"error":"bad request"}"#).unwrap();
    assert_eq!(v["error"], "bad request");
    let expected: serde_json::Value = serde_json::from_str(r#"{"error":"bad request"}"#).unwrap();
    assert_eq!(v, expected);
}

#[test]
fn success_status_with_json_body_is_returned() {
    let v = read_reply(200, b" [1, 2] ").unwrap();
    assert_eq!(v, serde_json::Value::from(vec![1, 2]));
}

#[test]
fn body_that_is_not_json_is_an_error() {
    assert!(read_reply(200, b"<html>oops</html>").is_err());
    assert!(read_reply(500, b"").is_err());
    assert!(read_reply(200, br#"{"a":1} trailing"#).is_err());
}

#[test]
fn control_characters_use_unicode_escapes() {
    let body = params("\u{1}\u{1f}", "é\u{8}\u{c}\r", None).to_json_body().unwrap();
    assert_eq!(body, "{\"agentName\":\"\\u0001\\u001f\",\"task\":\"é\\b\\f\\r\"}");
}
