//! The client core: every decision of a tracker conversation, with the
//! round trips themselves left to the caller.
//!
//! Each operation splits into a request builder, which yields the
//! [`HttpCall`] the caller must perform, and a response reader, which
//! turns the body the caller read back into the operation's result. The
//! caller performs login first, builds a [`Jira`] from the login response,
//! and attaches [`Jira::cookie_header`] to every later call.

use vstd::prelude::*;

use crate::codec::{
    auth_request_json, create_of_text, create_request_json, decode_auth_response,
    decode_cause_of_text, decode_create_response, decode_issue, decode_issue_list,
    encode_auth_request, encode_create_request, encode_query, issue_list_of_text, issue_of_text,
    query_json,
};
use crate::credential::{decode_credential, spec_credential};
use crate::error::Error;
use crate::issue::{normalize_issue, Issue, IssueVec};
use crate::jira_data::{
    default_max_results, default_query_fields, pairs_view, spec_create_fields,
    CreateIssueRequest, CreateIssueRequestV, JQLQuery, JQLQueryV, Session,
};
use crate::json::json_of;
use crate::urls::{join_url, joined_url, parse_url, parsed_url, url_as_string, url_str};
use crate::HttpCall;
use vstd::string::StringExecFns;

verus! {

/// An authenticated client: the parsed tracker base URL, the session
/// cookie pair from the login handshake, and the debug flag. Immutable
/// once built; one per process invocation.
#[derive(Debug)]
pub struct Jira {
    pub base_url: url::Url,
    pub session: Session,
    pub debug: bool,
}

impl Jira {
    /// The login round trip: a POST of the decoded credential to the auth
    /// endpoint under `base_url`. Fails with a parse error where the base
    /// URL is unusable, and with a credential error where the credential
    /// does not decode.
    pub fn login_request(auth: &str, base_url: &str) -> (r: Result<HttpCall, Error>)
        ensures
            r is Ok <==> (parsed_url(base_url@) is Some && joined_url(
                parsed_url(base_url@)->0,
                "rest/auth/1/session"@,
            ) is Some && spec_credential(auth@) is Some),
            r matches Ok(call) ==> {
                &&& call.url@ == joined_url(parsed_url(base_url@)->0, "rest/auth/1/session"@)->0
                &&& call.body matches Some(b) && json_of(b@) == Some(
                    auth_request_json(spec_credential(auth@)->0),
                )
            },
            r matches Err(e) ==> {
                &&& e is Parse || e is Credential
                &&& e is Credential ==> spec_credential(auth@) is None
                &&& e is Parse ==> (parsed_url(base_url@) is None || joined_url(
                    parsed_url(base_url@)->0,
                    "rest/auth/1/session"@,
                ) is None)
            },
    {
        let base = match parse_url(base_url) {
            Some(u) => u,
            None => {
                return Err(Error::Parse);
            },
        };
        let auth_url = match join_url(&base, "rest/auth/1/session") {
            Some(u) => u,
            None => {
                return Err(Error::Parse);
            },
        };
        let cred = match decode_credential(auth) {
            Ok(c) => c,
            Err(e) => {
                return Err(e);
            },
        };
        let body = encode_auth_request(&cred);
        Ok(HttpCall { url: url_as_string(&auth_url), body: Some(body) })
    }

    /// Builds the authenticated client from the login response body. Fails
    /// with a parse error where the base URL is unusable, and with an auth
    /// error where the body holds no usable session; there is no fallback
    /// to unauthenticated access.
    pub fn new(base_url: &str, login_response: &str, debug: bool) -> (r: Result<Jira, Error>)
        ensures
            r is Ok <==> (parsed_url(base_url@) is Some && crate::codec::auth_of_text(
                login_response@,
            ) is Some),
            r matches Ok(j) ==> {
                &&& url_str(j.base_url) == parsed_url(base_url@)->0
                &&& j.session@ == crate::codec::auth_of_text(login_response@)->0.session
                &&& j.debug == debug
            },
            r matches Err(e) ==> {
                &&& parsed_url(base_url@) is None ==> e is Parse
                &&& parsed_url(base_url@) is Some ==> e is Auth
            },
    {
        let base = match parse_url(base_url) {
            Some(u) => u,
            None => {
                return Err(Error::Parse);
            },
        };
        let auth = match decode_auth_response(login_response) {
            Some(a) => a,
            None => {
                return Err(Error::Auth);
            },
        };
        Ok(Jira { base_url: base, session: auth.session, debug })
    }

    /// The cookie header value every authenticated call carries.
    pub fn cookie_header(&self) -> (r: String)
        ensures
            r@ == self.session@.name + "="@ + self.session@.value,
    {
        let mut r = self.session.name.clone();
        r.append("=");
        r.append(self.session.value.as_str());
        r
    }

    /// The search round trip for `query`: a POST of the structured query,
    /// with the standard field list and page bound, to the search endpoint.
    pub fn query_request(&self, query: &str) -> (r: Result<HttpCall, Error>)
        ensures
            r is Ok <==> joined_url(url_str(self.base_url), "rest/api/2/search"@) is Some,
            r matches Ok(call) ==> {
                &&& call.url@ == joined_url(url_str(self.base_url), "rest/api/2/search"@)->0
                &&& call.body matches Some(b) && json_of(b@) == Some(
                    query_json(
                        JQLQueryV {
                            jql: query@,
                            fields: default_query_fields(),
                            max_results: default_max_results(),
                        },
                    ),
                )
            },
            r matches Err(e) ==> e is Parse,
    {
        let url = match join_url(&self.base_url, "rest/api/2/search") {
            Some(u) => u,
            None => {
                return Err(Error::Parse);
            },
        };
        let q = JQLQuery::new(query);
        let body = encode_query(&q);
        Ok(HttpCall { url: url_as_string(&url), body: Some(body) })
    }

    /// Reads a search response into the normalized, display-ordered issue
    /// collection. An empty list is a successful outcome; a body that does
    /// not decode is a decode error, never silently empty.
    pub fn query_response(&self, body: &str) -> (r: Result<IssueVec, Error>)
        ensures
            r is Ok <==> issue_list_of_text(body@) is Some,
            r matches Ok(issues) ==> {
                &&& issues@.len() == issue_list_of_text(body@)->0.issues.len()
                &&& forall|i: int|
                    0 <= i < issues@.len() ==> issues@[i] == normalize_issue(
                        issue_list_of_text(body@)->0.issues[issues@.len() - 1 - i],
                    )
            },
            r matches Err(e) ==> (e matches Error::Decode(op) && op@ == "search"@),
    {
        match decode_issue_list(body) {
            Some(list) => Ok(Issue::issues_from_response(&list)),
            None => Err(Error::Decode("search".to_owned())),
        }
    }

    /// The round trip fetching one issue by key: a GET of the issue
    /// endpoint for that key.
    pub fn issue_request(&self, issue_key: &str) -> (r: Result<HttpCall, Error>)
        ensures
            r is Ok <==> joined_url(
                url_str(self.base_url),
                "rest/api/2/issue/"@ + issue_key@,
            ) is Some,
            r matches Ok(call) ==> {
                &&& call.url@ == joined_url(
                    url_str(self.base_url),
                    "rest/api/2/issue/"@ + issue_key@,
                )->0
                &&& call.body is None
            },
            r matches Err(e) ==> e is Parse,
    {
        let rel = "rest/api/2/issue/".to_owned().concat(issue_key);
        let url = match join_url(&self.base_url, rel.as_str()) {
            Some(u) => u,
            None => {
                return Err(Error::Parse);
            },
        };
        Ok(HttpCall { url: url_as_string(&url), body: None })
    }

    /// Reads one issue's response into its normalized form. A body that
    /// does not decode — the tracker's not-found body among others — is an
    /// error naming the issue key and the underlying cause, never a
    /// successful empty issue.
    pub fn issue_response(&self, issue_key: &str, body: &str) -> (r: Result<Issue, Error>)
        ensures
            r is Ok <==> issue_of_text(body@) is Some,
            r matches Ok(x) ==> x@ == normalize_issue(issue_of_text(body@)->0),
            r matches Err(e) ==> (e matches Error::Unexpected(m) && m@ == "Issue "@ + issue_key@
                + " not found: "@ + decode_cause_of_text(body@)),
    {
        match decode_issue(body) {
            Ok(ir) => Ok(Issue::from_issue_response(&ir)),
            Err(cause) => {
                let mut m = "Issue ".to_owned();
                m.append(issue_key);
                m.append(" not found: ");
                m.append(cause.as_str());
                Err(Error::Unexpected(m))
            },
        }
    }

    /// The create round trip: a POST of the merged create request to the
    /// issue endpoint. All values come from the caller; none defaults.
    pub fn create_issue_request(
        &self,
        project_key: &str,
        issue_type: &str,
        summary: &str,
        description: &str,
        assignee: &str,
        labels: &Vec<String>,
        extra_fields: &Vec<(String, String)>,
    ) -> (r: Result<HttpCall, Error>)
        ensures
            r is Ok <==> joined_url(url_str(self.base_url), "rest/api/2/issue"@) is Some,
            r matches Ok(call) ==> {
                &&& call.url@ == joined_url(url_str(self.base_url), "rest/api/2/issue"@)->0
                &&& call.body matches Some(b) && json_of(b@) == Some(
                    create_request_json(
                        CreateIssueRequestV {
                            fields: spec_create_fields(
                                project_key@,
                                issue_type@,
                                summary@,
                                description@,
                                assignee@,
                                labels.deep_view(),
                                pairs_view(extra_fields@),
                            ),
                        },
                    ),
                )
            },
            r matches Err(e) ==> e is Parse,
    {
        let url = match join_url(&self.base_url, "rest/api/2/issue") {
            Some(u) => u,
            None => {
                return Err(Error::Parse);
            },
        };
        let request = CreateIssueRequest::new(
            project_key,
            issue_type,
            summary,
            description,
            assignee,
            labels,
            extra_fields,
        );
        let body = encode_create_request(&request);
        Ok(HttpCall { url: url_as_string(&url), body: Some(body) })
    }

    /// Reads a create response for the new issue's key, which the caller
    /// must fetch with one follow-up GET built by [`Jira::issue_request`].
    /// A response without a key is an unexpected-result error carrying the
    /// raw body; the key is never guessed.
    pub fn create_issue_response(&self, body: &str) -> (r: Result<String, Error>)
        ensures
            r is Ok <==> create_of_text(body@) is Some,
            r matches Ok(k) ==> k@ == create_of_text(body@)->0.key,
            r matches Err(e) ==> (e matches Error::Unexpected(m) && m@
                == "Jira response did not contain new issue key: "@ + body@),
    {
        match decode_create_response(body) {
            Some(c) => Ok(c.key),
            None => {
                let mut m = "Jira response did not contain new issue key: ".to_owned();
                m.append(body);
                Err(Error::Unexpected(m))
            },
        }
    }
}

} // verus!
