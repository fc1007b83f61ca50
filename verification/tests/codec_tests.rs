use oh_bother::codec::{
    decode_create_response, decode_issue, decode_issue_list, decode_query, encode_create_request,
    encode_query,
};
use oh_bother::jira_data::{CreateIssueRequest, JQLQuery};

#[test]
fn query_round_trips_through_wire_json() {
    let q = JQLQuery::new("project = X");
    let text = encode_query(&q);
    let back = decode_query(&text).expect("encoded query must decode");
    assert_eq!(back.jql, "project = X");
    assert_eq!(
        back.fields,
        vec![
            "summary".to_string(),
            "status".to_string(),
            "assignee".to_string(),
            "reporter".to_string(),
            "labels".to_string(),
        ]
    );
    assert_eq!(back.maxResults, 200);
}

#[test]
fn query_wire_json_has_expected_members() {
    let q = JQLQuery::new("project = X");
    let text = encode_query(&q);
    let v: serde_json::Value = serde_json::from_str(&text).unwrap();
    assert_eq!(v.get("jql").unwrap().as_str(), Some("project = X"));
    assert_eq!(v.get("maxResults").unwrap().as_u64(), Some(200));
    let fields = v.get("fields").unwrap().as_array().unwrap();
    assert_eq!(fields.len(), 5);
    assert_eq!(fields[0].as_str(), Some("summary"));
    assert_eq!(fields[4].as_str(), Some("labels"));
}

#[test]
fn decode_query_rejects_bad_shapes() {
    assert!(decode_query("not json").is_none());
    assert!(decode_query("{\"jql\": 3, \"fields\": [], \"maxResults\": 1}").is_none());
    assert!(decode_query("{\"jql\": \"x\", \"fields\": [1], \"maxResults\": 1}").is_none());
    assert!(decode_query("{\"jql\": \"x\", \"fields\": []}").is_none());
    assert!(decode_query("{\"jql\": \"x\", \"fields\": [], \"maxResults\": 70000}").is_none());
}

#[test]
fn issue_decode_applies_tolerant_defaults() {
    let body = "{\"key\": \"ABC-1\", \"self\": \"https://t.example.com/rest/api/2/issue/1\", \
                \"fields\": {\"summary\": \"a summary\", \"labels\": []}}";
    let ir = decode_issue(body).expect("minimal issue must decode");
    assert_eq!(ir.key, "ABC-1");
    assert_eq!(ir.fields.summary, "a summary");
    assert_eq!(ir.fields.description, "Unknown");
    assert_eq!(ir.fields.assignee.name, "<unknown>");
    assert_eq!(ir.fields.project.key, "Unknown");
    assert_eq!(ir.fields.issuetype.name, "Unknown");
    assert!(ir.fields.reporter.is_none());
    assert!(ir.fields.status.is_none());
    assert!(ir.fields.extra.is_empty());
}

#[test]
fn issue_decode_treats_null_like_absent_where_tolerated() {
    let body = "{\"key\": \"ABC-1\", \"self\": \"x\", \
                \"fields\": {\"summary\": \"s\", \"labels\": [], \
                \"description\": null, \"assignee\": null, \
                \"reporter\": null, \"status\": null}}";
    let ir = decode_issue(body).expect("nulls must fall back");
    assert_eq!(ir.fields.description, "Unknown");
    assert_eq!(ir.fields.assignee.name, "<unknown>");
    assert!(ir.fields.reporter.is_none());
    assert!(ir.fields.status.is_none());
}

#[test]
fn issue_decode_requires_summary_and_labels() {
    let no_summary = "{\"key\": \"K\", \"self\": \"x\", \"fields\": {\"labels\": []}}";
    assert!(decode_issue(no_summary).is_err());
    let no_labels = "{\"key\": \"K\", \"self\": \"x\", \"fields\": {\"summary\": \"s\"}}";
    assert!(decode_issue(no_labels).is_err());
    let bad_label = "{\"key\": \"K\", \"self\": \"x\", \
                     \"fields\": {\"summary\": \"s\", \"labels\": [1]}}";
    assert!(decode_issue(bad_label).is_err());
}

#[test]
fn issue_decode_failure_names_its_cause() {
    let not_json = decode_issue("definitely not json").unwrap_err();
    assert!(!not_json.is_empty());
    assert_ne!(not_json, "response shape did not match");
    let wrong_shape = decode_issue("{\"errorMessages\":[\"missing\"]}").unwrap_err();
    assert_eq!(wrong_shape, "response shape did not match");
}

#[test]
fn issue_decode_rejects_null_project() {
    let body = "{\"key\": \"K\", \"self\": \"x\", \
                \"fields\": {\"summary\": \"s\", \"labels\": [], \"project\": null}}";
    assert!(decode_issue(body).is_err());
}

#[test]
fn issue_list_decode_keeps_wire_order() {
    let body = "{\"issues\": [\
                {\"key\": \"A-1\", \"self\": \"x\", \"fields\": {\"summary\": \"one\", \"labels\": []}}, \
                {\"key\": \"A-2\", \"self\": \"x\", \"fields\": {\"summary\": \"two\", \"labels\": []}}]}";
    let list = decode_issue_list(body).expect("list must decode");
    assert_eq!(list.issues.len(), 2);
    assert_eq!(list.issues[0].key, "A-1");
    assert_eq!(list.issues[1].key, "A-2");
}

#[test]
fn issue_list_decode_fails_on_one_bad_element() {
    let body = "{\"issues\": [\
                {\"key\": \"A-1\", \"self\": \"x\", \"fields\": {\"summary\": \"one\", \"labels\": []}}, \
                {\"self\": \"x\", \"fields\": {\"summary\": \"two\", \"labels\": []}}]}";
    assert!(decode_issue_list(body).is_none());
}

#[test]
fn create_response_decode_wants_a_key() {
    let ok = decode_create_response("{\"key\": \"ABC-2\"}").expect("key present");
    assert_eq!(ok.key, "ABC-2");
    assert!(decode_create_response("{\"errorMessages\":[\"no permission\"]}").is_none());
}

#[test]
fn create_request_encodes_all_supplied_fields() {
    let labels = vec!["interrupt".to_string()];
    let extra = vec![("customfield_1".to_string(), "42".to_string())];
    let req = CreateIssueRequest::new("PROJ", "Task", "sum", "desc", "someone", &labels, &extra);
    let text = encode_create_request(&req);
    let v: serde_json::Value = serde_json::from_str(&text).unwrap();
    let fields = v.get("fields").unwrap();
    assert_eq!(fields.get("summary").unwrap().as_str(), Some("sum"));
    assert_eq!(fields.get("description").unwrap().as_str(), Some("desc"));
    assert_eq!(
        fields.get("assignee").unwrap().get("name").unwrap().as_str(),
        Some("someone")
    );
    assert_eq!(
        fields.get("project").unwrap().get("key").unwrap().as_str(),
        Some("PROJ")
    );
    assert_eq!(
        fields.get("issuetype").unwrap().get("name").unwrap().as_str(),
        Some("Task")
    );
    let labels_v = fields.get("labels").unwrap().as_array().unwrap();
    assert_eq!(labels_v.len(), 1);
    assert_eq!(labels_v[0].as_str(), Some("interrupt"));
    assert_eq!(
        fields.get("customfield_1").unwrap().get("id").unwrap().as_str(),
        Some("42")
    );
    assert!(fields.get("reporter").is_none());
    assert!(fields.get("status").is_none());
}
