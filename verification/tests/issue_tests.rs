use oh_bother::issue::Issue;
use oh_bother::jira_data::{
    IssueFields, IssueResponse, IssueResponseList, IssueTypeFields, ProjectFields, Status,
    UserFields,
};

fn plain_fields(summary: &str) -> IssueFields {
    IssueFields {
        summary: summary.to_string(),
        description: "Unknown".to_string(),
        assignee: UserFields::from_parts("<unknown>".to_string(), None),
        labels: Vec::new(),
        project: ProjectFields { key: "Unknown".to_string() },
        issuetype: IssueTypeFields { name: "Unknown".to_string() },
        reporter: None,
        status: None,
        extra: Vec::new(),
    }
}

fn plain_issue(key: &str, summary: &str) -> IssueResponse {
    IssueResponse {
        fields: plain_fields(summary),
        key: key.to_string(),
        self_url: String::new(),
    }
}

#[test]
fn missing_optionals_normalize_to_unknown() {
    let issue = Issue::from_issue_response(&plain_issue("A-1", "s"));
    assert_eq!(issue.assignee, "Unknown");
    assert_eq!(issue.reporter, "Unknown");
    assert_eq!(issue.status, "Unknown");
}

#[test]
fn present_optionals_pass_through() {
    let mut response = plain_issue("A-1", "s");
    response.fields.assignee =
        UserFields::from_parts("jdoe".to_string(), Some("Jo Doe".to_string()));
    response.fields.reporter =
        Some(UserFields::from_parts("rep".to_string(), Some("Re Porter".to_string())));
    response.fields.status = Some(Status { name: "Open".to_string() });
    let issue = Issue::from_issue_response(&response);
    assert_eq!(issue.assignee, "Jo Doe");
    assert_eq!(issue.reporter, "Re Porter");
    assert_eq!(issue.status, "Open");
}

#[test]
fn reporter_without_display_name_is_unknown() {
    let mut response = plain_issue("A-1", "s");
    response.fields.reporter = Some(UserFields::from_parts("rep".to_string(), None));
    let issue = Issue::from_issue_response(&response);
    assert_eq!(issue.reporter, "Unknown");
}

#[test]
fn issues_from_response_reverses_order() {
    let list = IssueResponseList {
        issues: vec![
            plain_issue("A-1", "first"),
            plain_issue("A-2", "second"),
            plain_issue("A-3", "third"),
        ],
    };
    let issues = Issue::issues_from_response(&list);
    assert!(!issues.is_empty());
    assert_eq!(issues.get(0).unwrap().key, "A-3");
    assert_eq!(issues.get(1).unwrap().key, "A-2");
    assert_eq!(issues.get(2).unwrap().key, "A-1");
    assert!(issues.get(3).is_none());
}

#[test]
fn empty_response_gives_empty_collection() {
    let list = IssueResponseList { issues: Vec::new() };
    let issues = Issue::issues_from_response(&list);
    assert!(issues.is_empty());
    assert!(issues.get(0).is_none());
}

#[test]
fn browse_url_is_derived_from_self_link() {
    let mut response = plain_issue("ABC-1", "s");
    response.self_url = "https://tracker.example.com/rest/api/2/issue/12345".to_string();
    let issue = Issue::from_issue_response(&response);
    assert_eq!(issue.browse_url, "https://tracker.example.com/browse/ABC-1");
}

#[test]
fn bad_self_link_degrades_to_empty_browse_url() {
    let empty = Issue::from_issue_response(&plain_issue("A-1", "s"));
    assert_eq!(empty.browse_url, "");
    let mut response = plain_issue("A-1", "s");
    response.self_url = "not a url at all".to_string();
    let issue = Issue::from_issue_response(&response);
    assert_eq!(issue.browse_url, "");
}

#[test]
fn field_lookup_covers_all_columns() {
    let mut response = plain_issue("A-1", "the summary");
    response.fields.labels = vec!["x".to_string(), "y".to_string()];
    response.self_url = "https://t.example.com/rest/api/2/issue/9".to_string();
    let issue = Issue::from_issue_response(&response);
    assert_eq!(issue.field("key").unwrap(), "A-1");
    assert_eq!(issue.field("summary").unwrap(), "the summary");
    assert_eq!(issue.field("labels").unwrap(), "x, y");
    assert_eq!(issue.field("self_url").unwrap(), "https://t.example.com/rest/api/2/issue/9");
    assert_eq!(issue.field("browse_url").unwrap(), "https://t.example.com/browse/A-1");
    assert_eq!(issue.field("status").unwrap(), "Unknown");
    assert_eq!(issue.field("assignee").unwrap(), "Unknown");
    assert_eq!(issue.field("reporter").unwrap(), "Unknown");
    assert!(issue.field("no_such_column").is_none());
}

#[test]
fn hash_map_projection_matches_fields() {
    let mut response = plain_issue("A-1", "s");
    response.fields.labels = vec!["a".to_string(), "b".to_string()];
    let issue = Issue::from_issue_response(&response);
    let map = issue.as_hash_map();
    assert_eq!(map.len(), 8);
    assert_eq!(map.get("key").unwrap(), "A-1");
    assert_eq!(map.get("labels").unwrap(), "a, b");
    assert_eq!(map.get("status").unwrap(), "Unknown");
}

#[test]
fn filtered_rows_number_and_substitute() {
    let list = IssueResponseList {
        issues: vec![plain_issue("A-1", "one"), plain_issue("A-2", "two")],
    };
    let issues = Issue::issues_from_response(&list);
    let columns = vec!["key".to_string(), "summary".to_string(), "bogus".to_string()];
    let rows = issues.as_filtered_rows(&columns);
    assert_eq!(rows.len(), 2);
    assert_eq!(rows[0], vec!["1", "A-2", "two", "<key missing>"]);
    assert_eq!(rows[1], vec!["2", "A-1", "one", "<key missing>"]);
}

#[test]
fn unfiltered_table_uses_the_standard_columns() {
    let mut response = plain_issue("A-1", "one");
    response.fields.labels = vec!["x".to_string(), "y".to_string()];
    let list = IssueResponseList { issues: vec![response] };
    let issues = Issue::issues_from_response(&list);
    let rows = issues.as_table_rows();
    assert_eq!(rows.len(), 1);
    assert_eq!(
        rows[0],
        vec!["1", "A-1", "Unknown", "Unknown", "Unknown", "one", "x, y"]
    );
}

#[test]
fn detail_rows_show_labels_only_when_present() {
    let without = Issue::from_issue_response(&plain_issue("A-1", "s"));
    let rows = without.detail_rows();
    assert_eq!(rows.len(), 6);
    assert_eq!(rows[0].0, "Summary");
    assert_eq!(rows[5], ("Assignee".to_string(), "Unknown".to_string()));
    let mut response = plain_issue("A-1", "s");
    response.fields.labels = vec!["lbl".to_string()];
    let with = Issue::from_issue_response(&response);
    let rows = with.detail_rows();
    assert_eq!(rows.len(), 7);
    assert_eq!(rows[6], ("Labels".to_string(), "lbl".to_string()));
}

#[test]
fn summary_line_concatenates_display_fields() {
    let issue = Issue::from_issue_response(&plain_issue("A-1", "fix it"));
    assert_eq!(issue.summary_line(), "A-1: fix it assigned: Unknown status: Unknown");
}
