//! The wire shapes exchanged with the tracker, and their mathematical views.
//!
//! Encoding to and decoding from JSON lives in [`crate::codec`]; this module
//! holds the shapes themselves, their constructors and the sentinel defaults
//! of the tolerant decode rules.

use vstd::prelude::*;

use crate::text::copy_strings;

verus! {

/// Login request body: the decoded credential pair.
#[derive(Debug)]
pub struct AuthRequest {
    pub username: String,
    pub password: String,
}

/// Mathematical view of [`AuthRequest`].
pub struct AuthRequestV {
    pub username: Seq<char>,
    pub password: Seq<char>,
}

impl View for AuthRequest {
    type V = AuthRequestV;

    open spec fn view(&self) -> AuthRequestV {
        AuthRequestV { username: self.username@, password: self.password@ }
    }
}

/// The session cookie pair returned by a successful login.
#[derive(Debug)]
pub struct Session {
    pub name: String,
    pub value: String,
}

/// Mathematical view of [`Session`].
pub struct SessionV {
    pub name: Seq<char>,
    pub value: Seq<char>,
}

impl View for Session {
    type V = SessionV;

    open spec fn view(&self) -> SessionV {
        SessionV { name: self.name@, value: self.value@ }
    }
}

/// Login response body: the session wrapper object.
#[derive(Debug)]
pub struct AuthResponse {
    pub session: Session,
}

/// Mathematical view of [`AuthResponse`].
pub struct AuthResponseV {
    pub session: SessionV,
}

impl View for AuthResponse {
    type V = AuthResponseV;

    open spec fn view(&self) -> AuthResponseV {
        AuthResponseV { session: self.session@ }
    }
}

/// A structured search query: the query text, the fields the tracker should
/// return, and the page bound.
#[allow(non_snake_case)]
#[derive(Debug)]
pub struct JQLQuery {
    pub jql: String,
    pub fields: Vec<String>,
    pub maxResults: u16,
}

/// Mathematical view of [`JQLQuery`].
pub struct JQLQueryV {
    pub jql: Seq<char>,
    pub fields: Seq<Seq<char>>,
    pub max_results: u16,
}

impl View for JQLQuery {
    type V = JQLQueryV;

    open spec fn view(&self) -> JQLQueryV {
        JQLQueryV {
            jql: self.jql@,
            fields: self.fields.deep_view(),
            max_results: self.maxResults,
        }
    }
}

/// The field names every search asks the tracker to return.
pub open spec fn default_query_fields() -> Seq<Seq<char>> {
    seq!["summary"@, "status"@, "assignee"@, "reporter"@, "labels"@]
}

/// The page bound every search carries.
pub open spec fn default_max_results() -> u16 {
    200
}

impl JQLQuery {
    /// Builds the query for `query` with the standard field list and page
    /// bound.
    pub fn new(query: &str) -> (r: JQLQuery)
        ensures
            r@.jql == query@,
            r@.fields == default_query_fields(),
            r@.max_results == default_max_results(),
    {
        let fields: Vec<String> = vec![
            "summary".to_owned(),
            "status".to_owned(),
            "assignee".to_owned(),
            "reporter".to_owned(),
            "labels".to_owned(),
        ];
        let r = JQLQuery { jql: query.to_owned(), fields, maxResults: 200 };
        proof {
            assert(r@.fields =~= default_query_fields());
        }
        r
    }

    /// Rebuilds a query from its parts; the decode path uses this.
    pub(crate) fn from_parts(jql: String, fields: Vec<String>, max_results: u16) -> (r: JQLQuery)
        ensures
            r@ == (JQLQueryV { jql: jql@, fields: fields.deep_view(), max_results }),
    {
        JQLQuery { jql, fields, maxResults: max_results }
    }
}

/// A user reference as the tracker sends and receives it.
#[allow(non_snake_case)]
#[derive(Debug)]
pub struct UserFields {
    pub name: String,
    pub displayName: Option<String>,
}

/// Mathematical view of [`UserFields`].
pub struct UserFieldsV {
    pub name: Seq<char>,
    pub display_name: Option<Seq<char>>,
}

impl View for UserFields {
    type V = UserFieldsV;

    open spec fn view(&self) -> UserFieldsV {
        UserFieldsV { name: self.name@, display_name: self.displayName.deep_view() }
    }
}

/// The display name a user reference surfaces: the display name the
/// tracker sent, or the `"Unknown"` sentinel where it sent none.
pub open spec fn display_name_of(u: UserFieldsV) -> Seq<char> {
    match u.display_name {
        Some(n) => n,
        None => "Unknown"@,
    }
}

/// The sentinel user substituted for an absent or null assignee.
pub open spec fn default_user_view() -> UserFieldsV {
    UserFieldsV { name: "<unknown>"@, display_name: None }
}

/// The sentinel user substituted for an absent or null assignee.
pub fn default_user() -> (r: UserFields)
    ensures
        r@ == default_user_view(),
{
    UserFields { name: "<unknown>".to_owned(), displayName: None }
}

impl UserFields {
    /// Builds a user reference from its parts.
    pub fn from_parts(name: String, display_name: Option<String>) -> (r: UserFields)
        ensures
            r@ == (UserFieldsV { name: name@, display_name: display_name.deep_view() }),
    {
        UserFields { name, displayName: display_name }
    }

    /// What `display_name` returns: the display name if the tracker sent
    /// one, the `"Unknown"` sentinel otherwise.
    pub open spec fn spec_display_name(self) -> Seq<char> {
        display_name_of(self@)
    }

    /// The user's display name, `"Unknown"` where the tracker sent none.
    pub fn display_name(&self) -> (r: String)
        ensures
            r@ == self.spec_display_name(),
    {
        match &self.displayName {
            Some(name) => name.clone(),
            None => "Unknown".to_owned(),
        }
    }
}

/// An issue status reference.
#[derive(Debug)]
pub struct Status {
    pub name: String,
}

/// Mathematical view of [`Status`].
pub struct StatusV {
    pub name: Seq<char>,
}

impl View for Status {
    type V = StatusV;

    open spec fn view(&self) -> StatusV {
        StatusV { name: self.name@ }
    }
}

/// A project reference, by key.
#[derive(Debug)]
pub struct ProjectFields {
    pub key: String,
}

/// Mathematical view of [`ProjectFields`].
pub struct ProjectFieldsV {
    pub key: Seq<char>,
}

impl View for ProjectFields {
    type V = ProjectFieldsV;

    open spec fn view(&self) -> ProjectFieldsV {
        ProjectFieldsV { key: self.key@ }
    }
}

/// The sentinel project substituted for an absent project on decode.
pub open spec fn default_project_view() -> ProjectFieldsV {
    ProjectFieldsV { key: "Unknown"@ }
}

/// The sentinel project substituted for an absent project on decode.
pub fn default_project() -> (r: ProjectFields)
    ensures
        r@ == default_project_view(),
{
    ProjectFields { key: "Unknown".to_owned() }
}

/// An issue-type reference, by name.
#[derive(Debug)]
pub struct IssueTypeFields {
    pub name: String,
}

/// Mathematical view of [`IssueTypeFields`].
pub struct IssueTypeFieldsV {
    pub name: Seq<char>,
}

impl View for IssueTypeFields {
    type V = IssueTypeFieldsV;

    open spec fn view(&self) -> IssueTypeFieldsV {
        IssueTypeFieldsV { name: self.name@ }
    }
}

/// The sentinel issue type substituted for an absent issue type on decode.
pub open spec fn default_issuetype_view() -> IssueTypeFieldsV {
    IssueTypeFieldsV { name: "Unknown"@ }
}

/// The sentinel issue type substituted for an absent issue type on decode.
pub fn default_issuetype() -> (r: IssueTypeFields)
    ensures
        r@ == default_issuetype_view(),
{
    IssueTypeFields { name: "Unknown".to_owned() }
}

/// The description sentinel substituted for an absent or null description.
pub open spec fn default_description_view() -> Seq<char> {
    "Unknown"@
}

/// The description sentinel substituted for an absent or null description.
pub fn default_description() -> (r: String)
    ensures
        r@ == default_description_view(),
{
    "Unknown".to_owned()
}

/// A custom select-list field value: a single id wrapper. These fields are
/// write-only pass-throughs; decoding never fills them.
#[derive(Debug)]
pub struct SelectListFields {
    pub id: String,
}

/// Mathematical view of [`SelectListFields`].
pub struct SelectListFieldsV {
    pub id: Seq<char>,
}

impl View for SelectListFields {
    type V = SelectListFieldsV;

    open spec fn view(&self) -> SelectListFieldsV {
        SelectListFieldsV { id: self.id@ }
    }
}

/// The field set of one issue, as the tracker sends and receives it.
///
/// `extra` is the open-ended mapping of custom field names to select-list
/// ids, kept as a list of pairs; it is written on create and never read
/// back on decode.
#[derive(Debug)]
pub struct IssueFields {
    pub summary: String,
    pub description: String,
    pub assignee: UserFields,
    pub labels: Vec<String>,
    pub project: ProjectFields,
    pub issuetype: IssueTypeFields,
    pub reporter: Option<UserFields>,
    pub status: Option<Status>,
    pub extra: Vec<(String, SelectListFields)>,
}

/// Mathematical view of [`IssueFields`].
pub struct IssueFieldsV {
    pub summary: Seq<char>,
    pub description: Seq<char>,
    pub assignee: UserFieldsV,
    pub labels: Seq<Seq<char>>,
    pub project: ProjectFieldsV,
    pub issuetype: IssueTypeFieldsV,
    pub reporter: Option<UserFieldsV>,
    pub status: Option<StatusV>,
    pub extra: Seq<(Seq<char>, Seq<char>)>,
}

impl View for IssueFields {
    type V = IssueFieldsV;

    open spec fn view(&self) -> IssueFieldsV {
        IssueFieldsV {
            summary: self.summary@,
            description: self.description@,
            assignee: self.assignee@,
            labels: self.labels.deep_view(),
            project: self.project@,
            issuetype: self.issuetype@,
            reporter: match self.reporter {
                Some(u) => Some(u@),
                None => None,
            },
            status: match self.status {
                Some(s) => Some(s@),
                None => None,
            },
            extra: Seq::new(self.extra@.len(), |i: int| (self.extra@[i].0@, self.extra@[i].1.id@)),
        }
    }
}

/// An issue-creation request body.
#[derive(Debug)]
pub struct CreateIssueRequest {
    pub fields: IssueFields,
}

/// Mathematical view of [`CreateIssueRequest`].
pub struct CreateIssueRequestV {
    pub fields: IssueFieldsV,
}

impl View for CreateIssueRequest {
    type V = CreateIssueRequestV;

    open spec fn view(&self) -> CreateIssueRequestV {
        CreateIssueRequestV { fields: self.fields@ }
    }
}

/// The field set a create request carries for the given values: everything
/// supplied by the caller, nothing defaulted, reporter and status left out.
pub open spec fn spec_create_fields(
    project_key: Seq<char>,
    issue_type: Seq<char>,
    summary: Seq<char>,
    description: Seq<char>,
    assignee: Seq<char>,
    labels: Seq<Seq<char>>,
    extra: Seq<(Seq<char>, Seq<char>)>,
) -> IssueFieldsV {
    IssueFieldsV {
        summary,
        description,
        assignee: UserFieldsV { name: assignee, display_name: None },
        labels,
        project: ProjectFieldsV { key: project_key },
        issuetype: IssueTypeFieldsV { name: issue_type },
        reporter: None,
        status: None,
        extra,
    }
}

/// The view of a list of name/id pairs.
pub open spec fn pairs_view(extra: Seq<(String, String)>) -> Seq<(Seq<char>, Seq<char>)> {
    Seq::new(extra.len(), |i: int| (extra[i].0@, extra[i].1@))
}

impl CreateIssueRequest {
    /// Merges the caller-supplied values into a create request. No defaults
    /// apply here: project, issue type, summary and assignee are all taken
    /// as given.
    pub fn new(
        project_key: &str,
        issue_type: &str,
        summary: &str,
        description: &str,
        assignee: &str,
        labels: &Vec<String>,
        extra_fields: &Vec<(String, String)>,
    ) -> (r: CreateIssueRequest)
        ensures
            r@.fields == spec_create_fields(
                project_key@,
                issue_type@,
                summary@,
                description@,
                assignee@,
                labels.deep_view(),
                pairs_view(extra_fields@),
            ),
    {
        let mut extra: Vec<(String, SelectListFields)> = Vec::new();
        let mut i: usize = 0;
        while i < extra_fields.len()
            invariant
                i <= extra_fields@.len(),
                extra@.len() == i,
                forall|k: int|
                    0 <= k < i ==> extra@[k].0@ == extra_fields@[k].0@ && extra@[k].1.id@
                        == extra_fields@[k].1@,
            decreases extra_fields@.len() - i,
        {
            let pair = &extra_fields[i];
            extra.push((pair.0.clone(), SelectListFields { id: pair.1.clone() }));
            i += 1;
        }
        let r = CreateIssueRequest {
            fields: IssueFields {
                summary: summary.to_owned(),
                description: description.to_owned(),
                assignee: UserFields::from_parts(assignee.to_owned(), None),
                labels: copy_strings(labels),
                project: ProjectFields { key: project_key.to_owned() },
                issuetype: IssueTypeFields { name: issue_type.to_owned() },
                reporter: None,
                status: None,
                extra,
            },
        };
        proof {
            assert(r@.fields.extra =~= pairs_view(extra_fields@));
        }
        r
    }
}

/// An issue-creation response body: the new issue's key and nothing more.
#[derive(Debug)]
pub struct CreateIssueResponse {
    pub key: String,
}

/// Mathematical view of [`CreateIssueResponse`].
pub struct CreateIssueResponseV {
    pub key: Seq<char>,
}

impl View for CreateIssueResponse {
    type V = CreateIssueResponseV;

    open spec fn view(&self) -> CreateIssueResponseV {
        CreateIssueResponseV { key: self.key@ }
    }
}

/// One issue as the tracker returns it.
#[derive(Debug)]
pub struct IssueResponse {
    pub fields: IssueFields,
    pub key: String,
    pub self_url: String,
}

/// Mathematical view of [`IssueResponse`].
pub struct IssueResponseV {
    pub fields: IssueFieldsV,
    pub key: Seq<char>,
    pub self_url: Seq<char>,
}

impl View for IssueResponse {
    type V = IssueResponseV;

    open spec fn view(&self) -> IssueResponseV {
        IssueResponseV { fields: self.fields@, key: self.key@, self_url: self.self_url@ }
    }
}

/// A search response: the list of matching issues.
#[derive(Debug)]
pub struct IssueResponseList {
    pub issues: Vec<IssueResponse>,
}

/// Mathematical view of [`IssueResponseList`].
pub struct IssueResponseListV {
    pub issues: Seq<IssueResponseV>,
}

impl View for IssueResponseList {
    type V = IssueResponseListV;

    open spec fn view(&self) -> IssueResponseListV {
        IssueResponseListV { issues: Seq::new(self.issues@.len(), |i: int| self.issues@[i]@) }
    }
}

} // verus!
