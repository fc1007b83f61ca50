use oh_bother::error::Error;
use oh_bother::jira::Jira;

const BASE: &str = "https://tracker.example.com/";
const LOGIN_BODY: &str = "{\"session\":{\"name\":\"JSESSIONID\",\"value\":\"abc123\"}}";

fn client() -> Jira {
    Jira::new(BASE, LOGIN_BODY, false).expect("login response must yield a session")
}

#[test]
fn login_request_posts_decoded_credential() {
    // "user:pass" in standard base64.
    let call = Jira::login_request("dXNlcjpwYXNz", BASE).unwrap();
    assert_eq!(call.url, "https://tracker.example.com/rest/auth/1/session");
    let body = call.body.expect("login is a POST");
    let v: serde_json::Value = serde_json::from_str(&body).unwrap();
    assert_eq!(v.get("username").unwrap().as_str(), Some("user"));
    assert_eq!(v.get("password").unwrap().as_str(), Some("pass"));
}

#[test]
fn login_request_rejects_bad_credential() {
    let err = Jira::login_request("%%% not base64 %%%", BASE).unwrap_err();
    assert!(matches!(err, Error::Credential));
}

#[test]
fn login_request_rejects_bad_base_url() {
    let err = Jira::login_request("dXNlcjpwYXNz", "not a url").unwrap_err();
    assert!(matches!(err, Error::Parse));
}

#[test]
fn new_fails_without_usable_session() {
    let err = Jira::new(BASE, "{\"unrelated\": true}", false).unwrap_err();
    assert!(matches!(err, Error::Auth));
    let err = Jira::new(BASE, "not json", false).unwrap_err();
    assert!(matches!(err, Error::Auth));
}

#[test]
fn session_cookie_comes_from_login_response() {
    let jira = client();
    assert_eq!(jira.session.name, "JSESSIONID");
    assert_eq!(jira.session.value, "abc123");
    assert_eq!(jira.cookie_header(), "JSESSIONID=abc123");
}

#[test]
fn query_request_targets_search_endpoint() {
    let jira = client();
    let call = jira
        .query_request("project in (FOO) AND status not in (Resolved, Closed)")
        .unwrap();
    assert_eq!(call.url, "https://tracker.example.com/rest/api/2/search");
    let body = call.body.expect("search is a POST");
    let v: serde_json::Value = serde_json::from_str(&body).unwrap();
    assert_eq!(
        v.get("jql").unwrap().as_str(),
        Some("project in (FOO) AND status not in (Resolved, Closed)")
    );
    assert_eq!(v.get("maxResults").unwrap().as_u64(), Some(200));
    assert_eq!(v.get("fields").unwrap().as_array().unwrap().len(), 5);
}

#[test]
fn search_scenario_renders_two_rows_reversed() {
    let jira = client();
    let body = "{\"issues\": [\
        {\"key\": \"FOO-1\", \"self\": \"https://tracker.example.com/rest/api/2/issue/1\", \
         \"fields\": {\"summary\": \"first\", \"labels\": [], \"status\": {\"name\": \"Open\"}}}, \
        {\"key\": \"FOO-2\", \"self\": \"https://tracker.example.com/rest/api/2/issue/2\", \
         \"fields\": {\"summary\": \"second\", \"labels\": [], \"status\": {\"name\": \"Open\"}}}]}";
    let issues = jira.query_response(body).unwrap();
    let columns = vec!["key".to_string(), "status".to_string(), "summary".to_string()];
    let rows = issues.as_filtered_rows(&columns);
    assert_eq!(rows.len(), 2);
    assert_eq!(rows[0], vec!["1", "FOO-2", "Open", "second"]);
    assert_eq!(rows[1], vec!["2", "FOO-1", "Open", "first"]);
}

#[test]
fn empty_search_result_is_success_not_error() {
    let jira = client();
    let issues = jira.query_response("{\"issues\": []}").unwrap();
    assert!(issues.is_empty());
}

#[test]
fn undecodable_search_body_is_a_decode_error() {
    let jira = client();
    let err = jira.query_response("{\"nothing\": 1}").unwrap_err();
    match err {
        Error::Decode(op) => assert_eq!(op, "search"),
        other => panic!("expected a decode error, got {:?}", other),
    }
}

#[test]
fn create_key_triggers_followup_get() {
    let jira = client();
    let key = jira.create_issue_response("{\"key\": \"ABC-2\"}").unwrap();
    assert_eq!(key, "ABC-2");
    let follow_up = jira.issue_request(&key).unwrap();
    assert_eq!(follow_up.url, "https://tracker.example.com/rest/api/2/issue/ABC-2");
    assert!(follow_up.body.is_none());
}

#[test]
fn create_response_without_key_carries_raw_body() {
    let jira = client();
    let body = "{\"errorMessages\":[\"no permission\"]}";
    let err = jira.create_issue_response(body).unwrap_err();
    match err {
        Error::Unexpected(m) => {
            assert_eq!(
                m,
                "Jira response did not contain new issue key: {\"errorMessages\":[\"no permission\"]}"
            );
            assert!(m.contains(body));
        },
        other => panic!("expected an unexpected-result error, got {:?}", other),
    }
}

#[test]
fn create_issue_request_posts_merged_fields() {
    let jira = client();
    let labels = vec!["interrupt".to_string()];
    let extra: Vec<(String, String)> = Vec::new();
    let call = jira
        .create_issue_request("PROJ", "Task", "sum", "", "team-robot", &labels, &extra)
        .unwrap();
    assert_eq!(call.url, "https://tracker.example.com/rest/api/2/issue");
    let body = call.body.expect("create is a POST");
    let v: serde_json::Value = serde_json::from_str(&body).unwrap();
    let fields = v.get("fields").unwrap();
    assert_eq!(fields.get("summary").unwrap().as_str(), Some("sum"));
    assert_eq!(fields.get("description").unwrap().as_str(), Some(""));
    assert_eq!(
        fields.get("assignee").unwrap().get("name").unwrap().as_str(),
        Some("team-robot")
    );
}

#[test]
fn issue_response_normalizes_or_names_the_key() {
    let jira = client();
    let body = "{\"key\": \"ABC-2\", \"self\": \"https://tracker.example.com/rest/api/2/issue/2\", \
                \"fields\": {\"summary\": \"made\", \"labels\": []}}";
    let issue = jira.issue_response("ABC-2", body).unwrap();
    assert_eq!(issue.key, "ABC-2");
    assert_eq!(issue.browse_url, "https://tracker.example.com/browse/ABC-2");
    let err = jira.issue_response("ABC-9", "{\"errorMessages\":[\"missing\"]}").unwrap_err();
    match err {
        Error::Unexpected(m) => {
            assert_eq!(m, "Issue ABC-9 not found: response shape did not match")
        },
        other => panic!("expected an unexpected-result error, got {:?}", other),
    }
    let err = jira.issue_response("ABC-9", "not json").unwrap_err();
    match err {
        Error::Unexpected(m) => {
            assert!(m.starts_with("Issue ABC-9 not found: "));
            assert!(m.len() > "Issue ABC-9 not found: ".len());
        },
        other => panic!("expected an unexpected-result error, got {:?}", other),
    }
}

#[test]
fn base_url_without_trailing_slash_still_joins() {
    let jira = Jira::new("https://tracker.example.com", LOGIN_BODY, true).unwrap();
    assert!(jira.debug);
    let call = jira.query_request("x").unwrap();
    assert_eq!(call.url, "https://tracker.example.com/rest/api/2/search");
}
