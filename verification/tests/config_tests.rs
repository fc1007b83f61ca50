use oh_bother::config::{extract, Config, Defaults};
use oh_bother::credential::decode_credential;
use oh_bother::error::Error;
use oh_bother::jira_data::{JQLQuery, UserFields};
use oh_bother::text::{decimal_string, join_with, str_eq};

fn sample_config() -> Config {
    Config {
        jira_url: "https://tracker.example.com/".to_string(),
        auth: "dXNlcjpwYXNz".to_string(),
        username: "jdoe".to_string(),
        projects: vec!["FOO".to_string(), "BAR".to_string()],
        npc_users: vec!["Unassigned".to_string(), "team-robot".to_string()],
        open_in_browser: false,
        browser_command: "firefox".to_string(),
        defaults: Defaults {
            project_key: "FOO".to_string(),
            assignee: "team-robot".to_string(),
            labels: vec!["interrupt".to_string()],
        },
    }
}

#[test]
fn projects_and_npc_users_join_with_commas() {
    let config = sample_config();
    assert_eq!(config.projects(), "FOO, BAR");
    assert_eq!(config.npc_users(), "Unassigned, team-robot");
}

#[test]
fn standing_queries_have_exact_text() {
    let config = sample_config();
    assert_eq!(
        config.list_query(),
        "project in (FOO, BAR) AND status not in (Resolved, Closed)"
    );
    assert_eq!(
        config.current_query(),
        "project in (FOO, BAR) AND assignee = jdoe AND status not in (Resolved, Closed)"
    );
    assert_eq!(
        config.next_query(),
        "project in (FOO, BAR) AND status = Open AND assignee in (Unassigned, team-robot)"
    );
}

#[test]
fn extract_maps_absence_to_invalid_config() {
    let present = extract(|| Some(7u32));
    assert_eq!(present.unwrap(), 7);
    let absent: Result<u32, Error> = extract(|| None);
    assert!(matches!(absent.unwrap_err(), Error::InvalidConfig));
}

#[test]
fn credential_decodes_username_and_password() {
    // "user:pass"
    let a = decode_credential("dXNlcjpwYXNz").unwrap();
    assert_eq!(a.username, "user");
    assert_eq!(a.password, "pass");
}

#[test]
fn credential_password_keeps_further_colons() {
    // "user:a:b:c"
    let a = decode_credential("dXNlcjphOmI6Yw==").unwrap();
    assert_eq!(a.username, "user");
    assert_eq!(a.password, "a:b:c");
}

#[test]
fn credential_without_colon_has_empty_password() {
    // "justuser"
    let a = decode_credential("anVzdHVzZXI=").unwrap();
    assert_eq!(a.username, "justuser");
    assert_eq!(a.password, "");
}

#[test]
fn bad_credential_is_a_credential_error() {
    assert!(matches!(
        decode_credential("!!!").unwrap_err(),
        Error::Credential
    ));
    // Valid base64 of bytes that are not UTF-8: 0xFF 0xFE.
    assert!(matches!(
        decode_credential("//4=").unwrap_err(),
        Error::Credential
    ));
}

#[test]
fn query_defaults_match_the_wire_contract() {
    let q = JQLQuery::new("anything");
    assert_eq!(q.jql, "anything");
    assert_eq!(q.maxResults, 200);
    assert_eq!(q.fields.len(), 5);
}

#[test]
fn display_name_falls_back_to_unknown() {
    let named = UserFields::from_parts("u".to_string(), Some("A Name".to_string()));
    assert_eq!(named.display_name(), "A Name");
    let unnamed = UserFields::from_parts("u".to_string(), None);
    assert_eq!(unnamed.display_name(), "Unknown");
}

#[test]
fn error_messages_name_the_failure() {
    assert_eq!(Error::InvalidConfig.message(), "invalid config file");
    assert_eq!(
        Error::Unexpected("boom".to_string()).message(),
        "unexpected result: boom"
    );
    assert_eq!(
        Error::Decode("search".to_string()).message(),
        "could not decode response: search"
    );
}

#[test]
fn text_helpers_behave() {
    assert_eq!(decimal_string(0), "0");
    assert_eq!(decimal_string(7), "7");
    assert_eq!(decimal_string(10), "10");
    assert_eq!(decimal_string(90210), "90210");
    assert_eq!(join_with(&Vec::new(), ", "), "");
    assert_eq!(join_with(&vec!["a".to_string()], ", "), "a");
    assert_eq!(join_with(&vec!["a".to_string(), "b".to_string()], "-"), "a-b");
    assert!(str_eq("same", "same"));
    assert!(!str_eq("same", "other"));
}
