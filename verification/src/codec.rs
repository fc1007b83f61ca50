//! Encoding the wire shapes to JSON and tolerantly decoding them back.
//!
//! Every shape has a spec-level description of its JSON document
//! (`*_json`), and the decode rules are spec functions from [`Json`] to the
//! shape's view (`decode_*`). The executable functions are verified to
//! follow those descriptions exactly; only the text layer itself goes
//! through the trusted wrappers of [`crate::json`].

use vstd::prelude::*;

use crate::jira_data::{
    default_description, default_description_view, default_issuetype, default_issuetype_view,
    default_project,
    default_project_view, default_user, default_user_view, AuthRequest, AuthRequestV,
    AuthResponse, AuthResponseV, CreateIssueRequest, CreateIssueRequestV, CreateIssueResponse,
    CreateIssueResponseV, IssueFields, IssueFieldsV, IssueResponse, IssueResponseList,
    IssueResponseListV, IssueResponseV, IssueTypeFields, IssueTypeFieldsV, JQLQuery, JQLQueryV,
    ProjectFields, ProjectFieldsV, SelectListFields, Session, SessionV, Status, StatusV,
    UserFields, UserFieldsV,
};
use crate::json::{
    arr_of, arr_val, depth_below, int_val, is_null, json_error_text, json_of, new_obj, obj_get,
    obj_insert, parse_depth_limit, parse_json, str_of, str_val, u64_of, value_model, write_json,
    Json,
};

verus! {

// ---------------------------------------------------------------------
// Spec: the JSON documents the shapes encode to.
// ---------------------------------------------------------------------
/// A user reference on the wire: the display name is never written.
pub open spec fn user_json(u: UserFieldsV) -> Json {
    Json::Obj(Map::empty().insert("name"@, Json::Str(u.name)))
}

/// An array of strings.
pub open spec fn str_arr_json(items: Seq<Seq<char>>) -> Json {
    Json::Arr(Seq::new(items.len(), |i: int| Json::Str(items[i])))
}

/// A project reference on the wire.
pub open spec fn project_json(p: ProjectFieldsV) -> Json {
    Json::Obj(Map::empty().insert("key"@, Json::Str(p.key)))
}

/// An issue-type reference on the wire.
pub open spec fn issuetype_json(t: IssueTypeFieldsV) -> Json {
    Json::Obj(Map::empty().insert("name"@, Json::Str(t.name)))
}

/// A custom select-list value on the wire: a single id wrapper.
pub open spec fn select_json(id: Seq<char>) -> Json {
    Json::Obj(Map::empty().insert("id"@, Json::Str(id)))
}

/// The fixed members of an issue's field object: reporter and status are
/// never written.
pub open spec fn base_fields_map(f: IssueFieldsV) -> Map<Seq<char>, Json> {
    Map::empty().insert("summary"@, Json::Str(f.summary)).insert(
        "description"@,
        Json::Str(f.description),
    ).insert("assignee"@, user_json(f.assignee)).insert("labels"@, str_arr_json(f.labels)).insert(
        "project"@,
        project_json(f.project),
    ).insert("issuetype"@, issuetype_json(f.issuetype))
}

/// The custom fields merged over `m`, first pair first.
pub open spec fn with_extra(m: Map<Seq<char>, Json>, extra: Seq<(Seq<char>, Seq<char>)>) -> Map<
    Seq<char>,
    Json,
>
    decreases extra.len(),
{
    if extra.len() == 0 {
        m
    } else {
        with_extra(m.insert(extra[0].0, select_json(extra[0].1)), extra.drop_first())
    }
}

/// An issue's field object, custom fields included.
pub open spec fn issue_fields_json(f: IssueFieldsV) -> Json {
    Json::Obj(with_extra(base_fields_map(f), f.extra))
}

/// A create-issue request body.
pub open spec fn create_request_json(c: CreateIssueRequestV) -> Json {
    Json::Obj(Map::empty().insert("fields"@, issue_fields_json(c.fields)))
}

/// A login request body.
pub open spec fn auth_request_json(a: AuthRequestV) -> Json {
    Json::Obj(
        Map::empty().insert("username"@, Json::Str(a.username)).insert(
            "password"@,
            Json::Str(a.password),
        ),
    )
}

/// A search request body.
pub open spec fn query_json(q: JQLQueryV) -> Json {
    Json::Obj(
        Map::empty().insert("jql"@, Json::Str(q.jql)).insert(
            "fields"@,
            str_arr_json(q.fields),
        ).insert("maxResults"@, Json::Int(q.max_results as int)),
    )
}

// ---------------------------------------------------------------------
// Depth of the request documents: every encoded request nests containers
// well below the JSON parser's limit, which the text layer's round-trip
// guarantee asks for.
// ---------------------------------------------------------------------
/// A document that is no container nests within any bound.
proof fn lemma_leaf_depth(j: Json, d: nat)
    requires
        !(j is Arr),
        !(j is Obj),
    ensures
        depth_below(j, d),
{
}

/// A string array nests one level.
proof fn lemma_str_arr_depth(items: Seq<Seq<char>>, d: nat)
    requires
        d >= 1,
    ensures
        depth_below(str_arr_json(items), d),
{
    let elems = str_arr_json(items).items();
    assert forall|i: int| 0 <= i < elems.len() implies depth_below(
        #[trigger] elems[i],
        (d - 1) as nat,
    ) by {
        assert(elems[i] == Json::Str(items[i]));
        lemma_leaf_depth(elems[i], (d - 1) as nat);
    }
}

/// A user reference document nests one level.
proof fn lemma_user_json_depth(u: UserFieldsV, d: nat)
    requires
        d >= 1,
    ensures
        depth_below(user_json(u), d),
{
    let m = user_json(u).fields();
    assert forall|k: Seq<char>| m.contains_key(k) implies depth_below(
        #[trigger] m[k],
        (d - 1) as nat,
    ) by {
        assert(m[k] == Json::Str(u.name));
        lemma_leaf_depth(m[k], (d - 1) as nat);
    }
}

/// A project reference document nests one level.
proof fn lemma_project_json_depth(p: ProjectFieldsV, d: nat)
    requires
        d >= 1,
    ensures
        depth_below(project_json(p), d),
{
    let m = project_json(p).fields();
    assert forall|k: Seq<char>| m.contains_key(k) implies depth_below(
        #[trigger] m[k],
        (d - 1) as nat,
    ) by {
        assert(m[k] == Json::Str(p.key));
        lemma_leaf_depth(m[k], (d - 1) as nat);
    }
}

/// An issue-type reference document nests one level.
proof fn lemma_issuetype_json_depth(t: IssueTypeFieldsV, d: nat)
    requires
        d >= 1,
    ensures
        depth_below(issuetype_json(t), d),
{
    let m = issuetype_json(t).fields();
    assert forall|k: Seq<char>| m.contains_key(k) implies depth_below(
        #[trigger] m[k],
        (d - 1) as nat,
    ) by {
        assert(m[k] == Json::Str(t.name));
        lemma_leaf_depth(m[k], (d - 1) as nat);
    }
}

/// A custom select-list document nests one level.
proof fn lemma_select_json_depth(id: Seq<char>, d: nat)
    requires
        d >= 1,
    ensures
        depth_below(select_json(id), d),
{
    let m = select_json(id).fields();
    assert forall|k: Seq<char>| m.contains_key(k) implies depth_below(
        #[trigger] m[k],
        (d - 1) as nat,
    ) by {
        assert(m[k] == Json::Str(id));
        lemma_leaf_depth(m[k], (d - 1) as nat);
    }
}

/// A login request document nests one level.
proof fn lemma_auth_request_json_depth(a: AuthRequestV, d: nat)
    requires
        d >= 1,
    ensures
        depth_below(auth_request_json(a), d),
{
    let m = auth_request_json(a).fields();
    assert forall|k: Seq<char>| m.contains_key(k) implies depth_below(
        #[trigger] m[k],
        (d - 1) as nat,
    ) by {
        assert(m[k] == Json::Str(a.username) || m[k] == Json::Str(a.password));
        lemma_leaf_depth(m[k], (d - 1) as nat);
    }
}

/// A search request document nests two levels.
proof fn lemma_query_json_depth(q: JQLQueryV, d: nat)
    requires
        d >= 2,
    ensures
        depth_below(query_json(q), d),
{
    let m = query_json(q).fields();
    assert forall|k: Seq<char>| m.contains_key(k) implies depth_below(
        #[trigger] m[k],
        (d - 1) as nat,
    ) by {
        if m[k] == str_arr_json(q.fields) {
            lemma_str_arr_depth(q.fields, (d - 1) as nat);
        } else {
            assert(m[k] == Json::Str(q.jql) || m[k] == Json::Int(q.max_results as int));
            lemma_leaf_depth(m[k], (d - 1) as nat);
        }
    }
}

/// The fixed issue fields all nest within one level each.
proof fn lemma_base_fields_depth(f: IssueFieldsV, dm: nat)
    requires
        dm >= 1,
    ensures
        forall|k: Seq<char>|
            base_fields_map(f).contains_key(k) ==> depth_below(#[trigger] base_fields_map(f)[k], dm),
{
    let m = base_fields_map(f);
    assert forall|k: Seq<char>| m.contains_key(k) implies depth_below(#[trigger] m[k], dm) by {
        if m[k] == user_json(f.assignee) {
            lemma_user_json_depth(f.assignee, dm);
        } else if m[k] == str_arr_json(f.labels) {
            lemma_str_arr_depth(f.labels, dm);
        } else if m[k] == project_json(f.project) {
            lemma_project_json_depth(f.project, dm);
        } else if m[k] == issuetype_json(f.issuetype) {
            lemma_issuetype_json_depth(f.issuetype, dm);
        } else {
            assert(m[k] == Json::Str(f.summary) || m[k] == Json::Str(f.description));
            lemma_leaf_depth(m[k], dm);
        }
    }
}

/// Merging custom fields keeps every member within the bound: each merged
/// value is a one-level select-list document.
proof fn lemma_with_extra_depth(
    m: Map<Seq<char>, Json>,
    extra: Seq<(Seq<char>, Seq<char>)>,
    dm: nat,
)
    requires
        dm >= 1,
        forall|k: Seq<char>| m.contains_key(k) ==> depth_below(#[trigger] m[k], dm),
    ensures
        forall|k: Seq<char>|
            with_extra(m, extra).contains_key(k) ==> depth_below(#[trigger] with_extra(m, extra)[k], dm),
    decreases extra.len(),
{
    if extra.len() > 0 {
        let m2 = m.insert(extra[0].0, select_json(extra[0].1));
        assert forall|k: Seq<char>| m2.contains_key(k) implies depth_below(
            #[trigger] m2[k],
            dm,
        ) by {
            if k == extra[0].0 {
                lemma_select_json_depth(extra[0].1, dm);
            }
        }
        lemma_with_extra_depth(m2, extra.drop_first(), dm);
        assert(with_extra(m, extra) == with_extra(m2, extra.drop_first()));
    }
}

/// A create request document nests four levels at most.
proof fn lemma_create_request_json_depth(c: CreateIssueRequestV, d: nat)
    requires
        d >= 4,
    ensures
        depth_below(create_request_json(c), d),
{
    let m = create_request_json(c).fields();
    assert forall|k: Seq<char>| m.contains_key(k) implies depth_below(
        #[trigger] m[k],
        (d - 1) as nat,
    ) by {
        assert(m[k] == issue_fields_json(c.fields));
        let inner = issue_fields_json(c.fields).fields();
        lemma_base_fields_depth(c.fields, (d - 2) as nat);
        lemma_with_extra_depth(base_fields_map(c.fields), c.fields.extra, (d - 2) as nat);
        assert(depth_below(issue_fields_json(c.fields), (d - 1) as nat));
    }
}

// ---------------------------------------------------------------------
// Exec: building the documents.
// ---------------------------------------------------------------------
/// Folding one more custom field extends the merged map by one insert.
proof fn lemma_with_extra_push(
    m: Map<Seq<char>, Json>,
    extra: Seq<(Seq<char>, Seq<char>)>,
    p: (Seq<char>, Seq<char>),
)
    ensures
        with_extra(m, extra.push(p)) == with_extra(m, extra).insert(p.0, select_json(p.1)),
    decreases extra.len(),
{
    if extra.len() == 0 {
        let m2 = m.insert(p.0, select_json(p.1));
        assert(extra.push(p)[0] == p);
        assert(extra.push(p).drop_first() =~= Seq::<(Seq<char>, Seq<char>)>::empty());
        assert(with_extra(m2, extra.push(p).drop_first()) == m2);
        assert(with_extra(m, extra.push(p)) == with_extra(m2, extra.push(p).drop_first()));
    } else {
        let m2 = m.insert(extra[0].0, select_json(extra[0].1));
        assert(extra.push(p)[0] == extra[0]);
        assert(extra.push(p).drop_first() =~= extra.drop_first().push(p));
        assert(with_extra(m, extra.push(p)) == with_extra(m2, extra.drop_first().push(p)));
        lemma_with_extra_push(m2, extra.drop_first(), p);
        assert(with_extra(m, extra) == with_extra(m2, extra.drop_first()));
    }
}

/// A string array value.
fn str_vec_to_value(items: &Vec<String>) -> (v: serde_json::Value)
    ensures
        value_model(v) == str_arr_json(items.deep_view()),
{
    let mut xs: Vec<serde_json::Value> = Vec::new();
    let mut i: usize = 0;
    while i < items.len()
        invariant
            i <= items@.len(),
            xs@.len() == i,
            forall|k: int| 0 <= k < i ==> value_model(xs@[k]) == Json::Str(items.deep_view()[k]),
        decreases items@.len() - i,
    {
        xs.push(str_val(items[i].as_str()));
        i += 1;
    }
    let v = arr_val(xs);
    proof {
        assert(Seq::new(xs@.len(), |i: int| value_model(xs@[i])) =~= str_arr_json(
            items.deep_view(),
        ).items());
    }
    v
}

/// A user reference value.
fn user_to_value(u: &UserFields) -> (v: serde_json::Value)
    ensures
        value_model(v) == user_json(u@),
{
    let mut v = new_obj();
    obj_insert(&mut v, "name", str_val(u.name.as_str()));
    v
}

/// An issue field object value.
fn issue_fields_to_value(f: &IssueFields) -> (v: serde_json::Value)
    ensures
        value_model(v) == issue_fields_json(f@),
{
    let mut v = new_obj();
    obj_insert(&mut v, "summary", str_val(f.summary.as_str()));
    obj_insert(&mut v, "description", str_val(f.description.as_str()));
    obj_insert(&mut v, "assignee", user_to_value(&f.assignee));
    obj_insert(&mut v, "labels", str_vec_to_value(&f.labels));
    let mut proj = new_obj();
    obj_insert(&mut proj, "key", str_val(f.project.key.as_str()));
    obj_insert(&mut v, "project", proj);
    let mut ity = new_obj();
    obj_insert(&mut ity, "name", str_val(f.issuetype.name.as_str()));
    obj_insert(&mut v, "issuetype", ity);
    proof {
        assert(value_model(v).fields() =~= base_fields_map(f@));
    }
    let mut i: usize = 0;
    while i < f.extra.len()
        invariant
            i <= f.extra@.len(),
            value_model(v) == Json::Obj(with_extra(base_fields_map(f@), f@.extra.subrange(0, i as int))),
        decreases f.extra@.len() - i,
    {
        let pair = &f.extra[i];
        obj_insert(&mut v, pair.0.as_str(), select_to_value(&pair.1));
        proof {
            assert(f@.extra.subrange(0, i + 1) =~= f@.extra.subrange(0, i as int).push(
                f@.extra[i as int],
            ));
            lemma_with_extra_push(base_fields_map(f@), f@.extra.subrange(0, i as int), f@.extra[i as int]);
            assert(f@.extra[i as int] == (f.extra@[i as int].0@, f.extra@[i as int].1.id@));
        }
        i += 1;
    }
    proof {
        assert(f@.extra.subrange(0, f.extra@.len() as int) =~= f@.extra);
    }
    v
}

/// A custom select-list value.
fn select_to_value(s: &SelectListFields) -> (v: serde_json::Value)
    ensures
        value_model(v) == select_json(s.id@),
{
    let mut v = new_obj();
    obj_insert(&mut v, "id", str_val(s.id.as_str()));
    v
}

/// Encodes a login request to its wire JSON text.
pub fn encode_auth_request(a: &AuthRequest) -> (r: String)
    ensures
        json_of(r@) == Some(auth_request_json(a@)),
{
    let mut v = new_obj();
    obj_insert(&mut v, "username", str_val(a.username.as_str()));
    obj_insert(&mut v, "password", str_val(a.password.as_str()));
    proof {
        lemma_auth_request_json_depth(a@, parse_depth_limit());
    }
    write_json(&v)
}

/// Encodes a search request to its wire JSON text.
pub fn encode_query(q: &JQLQuery) -> (r: String)
    ensures
        json_of(r@) == Some(query_json(q@)),
{
    let mut v = new_obj();
    obj_insert(&mut v, "jql", str_val(q.jql.as_str()));
    obj_insert(&mut v, "fields", str_vec_to_value(&q.fields));
    obj_insert(&mut v, "maxResults", int_val(q.maxResults as u64));
    proof {
        lemma_query_json_depth(q@, parse_depth_limit());
    }
    write_json(&v)
}

/// Encodes a create-issue request to its wire JSON text.
pub fn encode_create_request(c: &CreateIssueRequest) -> (r: String)
    ensures
        json_of(r@) == Some(create_request_json(c@)),
{
    let mut v = new_obj();
    obj_insert(&mut v, "fields", issue_fields_to_value(&c.fields));
    proof {
        lemma_create_request_json_depth(c@, parse_depth_limit());
    }
    write_json(&v)
}

// ---------------------------------------------------------------------
// Spec: the tolerant decode rules.
// ---------------------------------------------------------------------
/// A member that must be a string when present: `Some(None)` for absent or
/// null, `Some(Some(s))` for a string, `None` for anything else.
pub open spec fn opt_str_field(j: Json, key: Seq<char>) -> Option<Option<Seq<char>>> {
    match j.field(key) {
        None => Some(None),
        Some(Json::Null) => Some(None),
        Some(Json::Str(s)) => Some(Some(s)),
        Some(_) => None,
    }
}

/// A user reference: `name` is required, the display name may be absent or
/// null.
pub open spec fn decode_user_json(j: Json) -> Option<UserFieldsV> {
    match (j.field("name"@), opt_str_field(j, "displayName"@)) {
        (Some(Json::Str(name)), Some(d)) => Some(UserFieldsV { name: name, display_name: d }),
        _ => None,
    }
}

/// A status reference: `name` is required.
pub open spec fn decode_status_json(j: Json) -> Option<StatusV> {
    match j.field("name"@) {
        Some(Json::Str(name)) => Some(StatusV { name: name }),
        _ => None,
    }
}

/// A project reference: `key` is required.
pub open spec fn decode_project_json(j: Json) -> Option<ProjectFieldsV> {
    match j.field("key"@) {
        Some(Json::Str(key)) => Some(ProjectFieldsV { key: key }),
        _ => None,
    }
}

/// An issue-type reference: `name` is required.
pub open spec fn decode_issuetype_json(j: Json) -> Option<IssueTypeFieldsV> {
    match j.field("name"@) {
        Some(Json::Str(name)) => Some(IssueTypeFieldsV { name: name }),
        _ => None,
    }
}

/// The description member: absent or null falls back to the sentinel.
pub open spec fn decode_description_field(j: Json) -> Option<Seq<char>> {
    match opt_str_field(j, "description"@) {
        Some(Some(s)) => Some(s),
        Some(None) => Some(default_description_view()),
        None => None,
    }
}

/// The assignee member: absent or null falls back to the sentinel user;
/// anything else must decode as a user.
pub open spec fn decode_assignee_field(j: Json) -> Option<UserFieldsV> {
    match j.field("assignee"@) {
        None => Some(default_user_view()),
        Some(Json::Null) => Some(default_user_view()),
        Some(x) => decode_user_json(x),
    }
}

/// An optional user member (reporter): absent or null is `None`; anything
/// else must decode as a user.
pub open spec fn decode_opt_user_field(j: Json, key: Seq<char>) -> Option<Option<UserFieldsV>> {
    match j.field(key) {
        None => Some(None),
        Some(Json::Null) => Some(None),
        Some(x) => match decode_user_json(x) {
            Some(u) => Some(Some(u)),
            None => None,
        },
    }
}

/// The optional status member: absent or null is `None`; anything else must
/// decode as a status.
pub open spec fn decode_opt_status_field(j: Json) -> Option<Option<StatusV>> {
    match j.field("status"@) {
        None => Some(None),
        Some(Json::Null) => Some(None),
        Some(x) => match decode_status_json(x) {
            Some(s) => Some(Some(s)),
            None => None,
        },
    }
}

/// The elements of an array that must all be strings.
pub open spec fn decode_str_items(items: Seq<Json>) -> Option<Seq<Seq<char>>> {
    if forall|i: int| 0 <= i < items.len() ==> items[i] is Str {
        Some(Seq::new(items.len(), |i: int| items[i].chars()))
    } else {
        None
    }
}

/// The labels member: required, an array of strings.
pub open spec fn decode_labels_field(j: Json) -> Option<Seq<Seq<char>>> {
    match j.field("labels"@) {
        Some(Json::Arr(items)) => decode_str_items(items),
        _ => None,
    }
}

/// The project member: absent falls back to the sentinel project; present
/// (even null) must decode as a project.
pub open spec fn decode_project_field(j: Json) -> Option<ProjectFieldsV> {
    match j.field("project"@) {
        None => Some(default_project_view()),
        Some(x) => decode_project_json(x),
    }
}

/// The issuetype member: absent falls back to the sentinel issue type;
/// present (even null) must decode as an issue type.
pub open spec fn decode_issuetype_field(j: Json) -> Option<IssueTypeFieldsV> {
    match j.field("issuetype"@) {
        None => Some(default_issuetype_view()),
        Some(x) => decode_issuetype_json(x),
    }
}

/// One issue's field object. `summary` and `labels` are required; the rest
/// follow the tolerant rules above. Custom fields are never read back.
pub open spec fn decode_issue_fields_json(j: Json) -> Option<IssueFieldsV> {
    match (j.field("summary"@), decode_description_field(j), decode_assignee_field(j),
    decode_labels_field(j), decode_project_field(j), decode_issuetype_field(j),
    decode_opt_user_field(j, "reporter"@), decode_opt_status_field(j)) {
        (
            Some(Json::Str(summary)),
            Some(description),
            Some(assignee),
            Some(labels),
            Some(project),
            Some(issuetype),
            Some(reporter),
            Some(status),
        ) => Some(
            IssueFieldsV {
                summary: summary,
                description: description,
                assignee: assignee,
                labels: labels,
                project: project,
                issuetype: issuetype,
                reporter: reporter,
                status: status,
                extra: Seq::empty(),
            },
        ),
        _ => None,
    }
}

/// One issue: `fields`, `key` and the self link are required.
pub open spec fn decode_issue_json(j: Json) -> Option<IssueResponseV> {
    match (j.field("fields"@), j.field("key"@), j.field("self"@)) {
        (Some(f), Some(Json::Str(key)), Some(Json::Str(self_url))) => match decode_issue_fields_json(
            f,
        ) {
            Some(fv) => Some(IssueResponseV { fields: fv, key: key, self_url: self_url }),
            None => None,
        },
        _ => None,
    }
}

/// The elements of an array that must all decode as issues.
pub open spec fn decode_issue_items(items: Seq<Json>) -> Option<Seq<IssueResponseV>> {
    if forall|i: int| 0 <= i < items.len() ==> decode_issue_json(items[i]) is Some {
        Some(Seq::new(items.len(), |i: int| decode_issue_json(items[i])->0))
    } else {
        None
    }
}

/// A search response: the `issues` array is required and every element must
/// decode.
pub open spec fn decode_issue_list_json(j: Json) -> Option<IssueResponseListV> {
    match j.field("issues"@) {
        Some(Json::Arr(items)) => match decode_issue_items(items) {
            Some(s) => Some(IssueResponseListV { issues: s }),
            None => None,
        },
        _ => None,
    }
}

/// A login response: `session` with `name` and `value` is required.
pub open spec fn decode_auth_json(j: Json) -> Option<AuthResponseV> {
    match j.field("session"@) {
        Some(s) => match (s.field("name"@), s.field("value"@)) {
            (Some(Json::Str(name)), Some(Json::Str(value))) => Some(
                AuthResponseV { session: SessionV { name: name, value: value } },
            ),
            _ => None,
        },
        None => None,
    }
}

/// A create response: `key` is required.
pub open spec fn decode_create_json(j: Json) -> Option<CreateIssueResponseV> {
    match j.field("key"@) {
        Some(Json::Str(key)) => Some(CreateIssueResponseV { key: key }),
        _ => None,
    }
}

/// A search request read back: all three members are required and the page
/// bound must fit in a `u16`.
pub open spec fn decode_query_json(j: Json) -> Option<JQLQueryV> {
    match (j.field("jql"@), j.field("fields"@), j.field("maxResults"@)) {
        (Some(Json::Str(jql)), Some(Json::Arr(items)), Some(Json::Int(n))) => match decode_str_items(
            items,
        ) {
            Some(fields) => if 0 <= n <= u16::MAX as int {
                Some(JQLQueryV { jql: jql, fields: fields, max_results: n as u16 })
            } else {
                None
            },
            None => None,
        },
        _ => None,
    }
}

// ---------------------------------------------------------------------
// Exec: reading the documents.
// ---------------------------------------------------------------------
/// Reads a user reference.
fn user_from_value(v: &serde_json::Value) -> (r: Option<UserFields>)
    ensures
        r is Some <==> decode_user_json(value_model(*v)) is Some,
        r matches Some(u) ==> decode_user_json(value_model(*v)) == Some(u@),
{
    let name = match obj_get(v, "name") {
        Some(x) => match str_of(x) {
            Some(s) => s.to_owned(),
            None => {
                return None;
            },
        },
        None => {
            return None;
        },
    };
    let display: Option<String> = match obj_get(v, "displayName") {
        None => None,
        Some(d) => {
            if is_null(d) {
                None
            } else {
                match str_of(d) {
                    Some(s) => Some(s.to_owned()),
                    None => {
                        return None;
                    },
                }
            }
        },
    };
    Some(UserFields::from_parts(name, display))
}

/// Reads a status reference.
fn status_from_value(v: &serde_json::Value) -> (r: Option<Status>)
    ensures
        r is Some <==> decode_status_json(value_model(*v)) is Some,
        r matches Some(s) ==> decode_status_json(value_model(*v)) == Some(s@),
{
    match obj_get(v, "name") {
        Some(x) => match str_of(x) {
            Some(s) => Some(Status { name: s.to_owned() }),
            None => None,
        },
        None => None,
    }
}

/// Reads a project reference.
fn project_from_value(v: &serde_json::Value) -> (r: Option<ProjectFields>)
    ensures
        r is Some <==> decode_project_json(value_model(*v)) is Some,
        r matches Some(p) ==> decode_project_json(value_model(*v)) == Some(p@),
{
    match obj_get(v, "key") {
        Some(x) => match str_of(x) {
            Some(s) => Some(ProjectFields { key: s.to_owned() }),
            None => None,
        },
        None => None,
    }
}

/// Reads an issue-type reference.
fn issuetype_from_value(v: &serde_json::Value) -> (r: Option<IssueTypeFields>)
    ensures
        r is Some <==> decode_issuetype_json(value_model(*v)) is Some,
        r matches Some(t) ==> decode_issuetype_json(value_model(*v)) == Some(t@),
{
    match obj_get(v, "name") {
        Some(x) => match str_of(x) {
            Some(s) => Some(IssueTypeFields { name: s.to_owned() }),
            None => None,
        },
        None => None,
    }
}

/// Reads an array whose elements must all be strings.
fn str_arr_from_value(v: &serde_json::Value) -> (r: Option<Vec<String>>)
    ensures
        match value_model(*v) {
            Json::Arr(items) => (r is Some <==> decode_str_items(items) is Some) && (r matches Some(
                ls,
            ) ==> decode_str_items(items) == Some(ls.deep_view())),
            _ => r is None,
        },
{
    let arr = match arr_of(v) {
        Some(a) => a,
        None => {
            return None;
        },
    };
    let ghost items = value_model(*v).items();
    let mut out: Vec<String> = Vec::new();
    let mut i: usize = 0;
    while i < arr.len()
        invariant
            i <= arr@.len(),
            out@.len() == i,
            value_model(*v) is Arr,
            items == value_model(*v).items(),
            arr@.len() == items.len(),
            forall|k: int| 0 <= k < items.len() ==> value_model(arr@[k]) == items[k],
            forall|k: int| 0 <= k < i ==> (#[trigger] items[k]) is Str,
            forall|k: int| 0 <= k < i ==> #[trigger] out@[k]@ == items[k].chars(),
        decreases arr@.len() - i,
    {
        match str_of(&arr[i]) {
            Some(s) => out.push(s.to_owned()),
            None => {
                proof {
                    assert(!(items[i as int] is Str));
                    assert(!(forall|k: int| 0 <= k < items.len() ==> items[k] is Str));
                }
                return None;
            },
        }
        i += 1;
    }
    proof {
        assert(out.deep_view() =~= Seq::new(items.len(), |k: int| items[k].chars()));
    }
    Some(out)
}

/// Reads one issue's field object.
fn issue_fields_from_value(v: &serde_json::Value) -> (r: Option<IssueFields>)
    ensures
        r is Some <==> decode_issue_fields_json(value_model(*v)) is Some,
        r matches Some(f) ==> decode_issue_fields_json(value_model(*v)) == Some(f@),
{
    let summary = match obj_get(v, "summary") {
        Some(x) => match str_of(x) {
            Some(s) => s.to_owned(),
            None => {
                return None;
            },
        },
        None => {
            return None;
        },
    };
    let description = match obj_get(v, "description") {
        None => default_description(),
        Some(x) => {
            if is_null(x) {
                default_description()
            } else {
                match str_of(x) {
                    Some(s) => s.to_owned(),
                    None => {
                        return None;
                    },
                }
            }
        },
    };
    let assignee = match obj_get(v, "assignee") {
        None => default_user(),
        Some(x) => {
            if is_null(x) {
                default_user()
            } else {
                match user_from_value(x) {
                    Some(u) => u,
                    None => {
                        return None;
                    },
                }
            }
        },
    };
    let labels = match obj_get(v, "labels") {
        Some(x) => match str_arr_from_value(x) {
            Some(ls) => ls,
            None => {
                return None;
            },
        },
        None => {
            return None;
        },
    };
    let project = match obj_get(v, "project") {
        None => default_project(),
        Some(x) => match project_from_value(x) {
            Some(p) => p,
            None => {
                return None;
            },
        },
    };
    let issuetype = match obj_get(v, "issuetype") {
        None => default_issuetype(),
        Some(x) => match issuetype_from_value(x) {
            Some(t) => t,
            None => {
                return None;
            },
        },
    };
    let reporter = match obj_get(v, "reporter") {
        None => None,
        Some(x) => {
            if is_null(x) {
                None
            } else {
                match user_from_value(x) {
                    Some(u) => Some(u),
                    None => {
                        return None;
                    },
                }
            }
        },
    };
    let status = match obj_get(v, "status") {
        None => None,
        Some(x) => {
            if is_null(x) {
                None
            } else {
                match status_from_value(x) {
                    Some(s) => Some(s),
                    None => {
                        return None;
                    },
                }
            }
        },
    };
    let f = IssueFields {
        summary,
        description,
        assignee,
        labels,
        project,
        issuetype,
        reporter,
        status,
        extra: Vec::new(),
    };
    proof {
        assert(f@.extra =~= Seq::<(Seq<char>, Seq<char>)>::empty());
    }
    Some(f)
}

/// Reads one issue.
fn issue_from_value(v: &serde_json::Value) -> (r: Option<IssueResponse>)
    ensures
        r is Some <==> decode_issue_json(value_model(*v)) is Some,
        r matches Some(x) ==> decode_issue_json(value_model(*v)) == Some(x@),
{
    let fields_v = match obj_get(v, "fields") {
        Some(x) => x,
        None => {
            return None;
        },
    };
    let key = match obj_get(v, "key") {
        Some(x) => match str_of(x) {
            Some(s) => s.to_owned(),
            None => {
                return None;
            },
        },
        None => {
            return None;
        },
    };
    let self_url = match obj_get(v, "self") {
        Some(x) => match str_of(x) {
            Some(s) => s.to_owned(),
            None => {
                return None;
            },
        },
        None => {
            return None;
        },
    };
    match issue_fields_from_value(fields_v) {
        Some(fields) => Some(IssueResponse { fields, key, self_url }),
        None => None,
    }
}

/// Reads a search response.
fn issue_list_from_value(v: &serde_json::Value) -> (r: Option<IssueResponseList>)
    ensures
        r is Some <==> decode_issue_list_json(value_model(*v)) is Some,
        r matches Some(x) ==> decode_issue_list_json(value_model(*v)) == Some(x@),
{
    let list_v = match obj_get(v, "issues") {
        Some(x) => x,
        None => {
            return None;
        },
    };
    let arr = match arr_of(list_v) {
        Some(a) => a,
        None => {
            return None;
        },
    };
    let ghost items = value_model(*list_v).items();
    let mut out: Vec<IssueResponse> = Vec::new();
    let mut i: usize = 0;
    while i < arr.len()
        invariant
            i <= arr@.len(),
            out@.len() == i,
            value_model(*v).field("issues"@) == Some(value_model(*list_v)),
            value_model(*list_v) is Arr,
            items == value_model(*list_v).items(),
            arr@.len() == items.len(),
            forall|k: int| 0 <= k < items.len() ==> value_model(arr@[k]) == items[k],
            forall|k: int|
                0 <= k < i ==> #[trigger] decode_issue_json(items[k]) is Some,
            forall|k: int|
                0 <= k < i ==> decode_issue_json(items[k]) == Some(#[trigger] out@[k]@),
        decreases arr@.len() - i,
    {
        match issue_from_value(&arr[i]) {
            Some(x) => out.push(x),
            None => {
                proof {
                    assert(decode_issue_json(items[i as int]) is None);
                    assert(decode_issue_items(items) is None) by {
                        if decode_issue_items(items) is Some {
                            assert(decode_issue_json(items[i as int]) is Some);
                        }
                    }
                }
                return None;
            },
        }
        i += 1;
    }
    let r = IssueResponseList { issues: out };
    proof {
        assert(r@.issues =~= Seq::new(items.len(), |k: int| decode_issue_json(items[k])->0));
    }
    Some(r)
}

/// Reads a login response.
fn auth_from_value(v: &serde_json::Value) -> (r: Option<AuthResponse>)
    ensures
        r is Some <==> decode_auth_json(value_model(*v)) is Some,
        r matches Some(x) ==> decode_auth_json(value_model(*v)) == Some(x@),
{
    let session_v = match obj_get(v, "session") {
        Some(x) => x,
        None => {
            return None;
        },
    };
    let name = match obj_get(session_v, "name") {
        Some(x) => match str_of(x) {
            Some(s) => s.to_owned(),
            None => {
                return None;
            },
        },
        None => {
            return None;
        },
    };
    let value = match obj_get(session_v, "value") {
        Some(x) => match str_of(x) {
            Some(s) => s.to_owned(),
            None => {
                return None;
            },
        },
        None => {
            return None;
        },
    };
    Some(AuthResponse { session: Session { name, value } })
}

/// Reads a create response.
fn create_from_value(v: &serde_json::Value) -> (r: Option<CreateIssueResponse>)
    ensures
        r is Some <==> decode_create_json(value_model(*v)) is Some,
        r matches Some(x) ==> decode_create_json(value_model(*v)) == Some(x@),
{
    match obj_get(v, "key") {
        Some(x) => match str_of(x) {
            Some(s) => Some(CreateIssueResponse { key: s.to_owned() }),
            None => None,
        },
        None => None,
    }
}

/// Reads a search request back.
fn query_from_value(v: &serde_json::Value) -> (r: Option<JQLQuery>)
    ensures
        r is Some <==> decode_query_json(value_model(*v)) is Some,
        r matches Some(q) ==> decode_query_json(value_model(*v)) == Some(q@),
{
    let jql = match obj_get(v, "jql") {
        Some(x) => match str_of(x) {
            Some(s) => s.to_owned(),
            None => {
                return None;
            },
        },
        None => {
            return None;
        },
    };
    let fields = match obj_get(v, "fields") {
        Some(x) => match str_arr_from_value(x) {
            Some(ls) => ls,
            None => {
                return None;
            },
        },
        None => {
            return None;
        },
    };
    let max_results = match obj_get(v, "maxResults") {
        Some(x) => match u64_of(x) {
            Some(n) => {
                if n <= 65535 {
                    n as u16
                } else {
                    return None;
                }
            },
            None => {
                return None;
            },
        },
        None => {
            return None;
        },
    };
    Some(JQLQuery::from_parts(jql, fields, max_results))
}

// ---------------------------------------------------------------------
// The text layer.
// ---------------------------------------------------------------------
/// What decoding a search request text yields.
pub open spec fn query_of_text(s: Seq<char>) -> Option<JQLQueryV> {
    match json_of(s) {
        Some(j) => decode_query_json(j),
        None => None,
    }
}

/// What decoding a search response text yields.
pub open spec fn issue_list_of_text(s: Seq<char>) -> Option<IssueResponseListV> {
    match json_of(s) {
        Some(j) => decode_issue_list_json(j),
        None => None,
    }
}

/// What decoding one issue's text yields.
pub open spec fn issue_of_text(s: Seq<char>) -> Option<IssueResponseV> {
    match json_of(s) {
        Some(j) => decode_issue_json(j),
        None => None,
    }
}

/// What decoding a login response text yields.
pub open spec fn auth_of_text(s: Seq<char>) -> Option<AuthResponseV> {
    match json_of(s) {
        Some(j) => decode_auth_json(j),
        None => None,
    }
}

/// What decoding a create response text yields.
pub open spec fn create_of_text(s: Seq<char>) -> Option<CreateIssueResponseV> {
    match json_of(s) {
        Some(j) => decode_create_json(j),
        None => None,
    }
}

/// The diagnostic a failed text decode carries: the JSON parser's own text
/// where the body is not JSON, a fixed description where the JSON does not
/// match the expected shape.
pub open spec fn decode_cause_of_text(s: Seq<char>) -> Seq<char> {
    match json_of(s) {
        None => json_error_text(s),
        Some(_) => "response shape did not match"@,
    }
}

/// Decodes a search request from its wire JSON text.
pub fn decode_query(s: &str) -> (r: Option<JQLQuery>)
    ensures
        r is Some <==> query_of_text(s@) is Some,
        r matches Some(q) ==> query_of_text(s@) == Some(q@),
{
    match parse_json(s) {
        Ok(v) => query_from_value(&v),
        Err(_) => None,
    }
}

/// Decodes a search response from its wire JSON text.
pub fn decode_issue_list(s: &str) -> (r: Option<IssueResponseList>)
    ensures
        r is Some <==> issue_list_of_text(s@) is Some,
        r matches Some(x) ==> issue_list_of_text(s@) == Some(x@),
{
    match parse_json(s) {
        Ok(v) => issue_list_from_value(&v),
        Err(_) => None,
    }
}

/// Decodes one issue from its wire JSON text; a failure carries its cause.
pub fn decode_issue(s: &str) -> (r: Result<IssueResponse, String>)
    ensures
        r is Ok <==> issue_of_text(s@) is Some,
        r matches Ok(x) ==> issue_of_text(s@) == Some(x@),
        r matches Err(m) ==> m@ == decode_cause_of_text(s@),
{
    let v = match parse_json(s) {
        Ok(v) => v,
        Err(m) => {
            return Err(m);
        },
    };
    match issue_from_value(&v) {
        Some(x) => Ok(x),
        None => Err("response shape did not match".to_owned()),
    }
}

/// Decodes a login response from its wire JSON text.
pub fn decode_auth_response(s: &str) -> (r: Option<AuthResponse>)
    ensures
        r is Some <==> auth_of_text(s@) is Some,
        r matches Some(x) ==> auth_of_text(s@) == Some(x@),
{
    match parse_json(s) {
        Ok(v) => auth_from_value(&v),
        Err(_) => None,
    }
}

/// Decodes a create response from its wire JSON text.
pub fn decode_create_response(s: &str) -> (r: Option<CreateIssueResponse>)
    ensures
        r is Some <==> create_of_text(s@) is Some,
        r matches Some(x) ==> create_of_text(s@) == Some(x@),
{
    match parse_json(s) {
        Ok(v) => create_from_value(&v),
        Err(_) => None,
    }
}

// ---------------------------------------------------------------------
// Laws.
// ---------------------------------------------------------------------
/// Serializing a search request is lossless: decoding the document it
/// encodes to yields the same query back, for every query.
pub proof fn lemma_query_round_trip(q: JQLQueryV)
    ensures
        decode_query_json(query_json(q)) == Some(q),
{
    reveal_strlit("jql");
    reveal_strlit("fields");
    reveal_strlit("maxResults");
    assert("jql"@.len() == 3);
    assert("fields"@.len() == 6);
    assert("maxResults"@.len() == 10);
    let j = query_json(q);
    assert(j.field("jql"@) == Some(Json::Str(q.jql)));
    assert(j.field("fields"@) == Some(str_arr_json(q.fields)));
    assert(j.field("maxResults"@) == Some(Json::Int(q.max_results as int)));
    let items = str_arr_json(q.fields).items();
    assert(forall|i: int| 0 <= i < items.len() ==> items[i] is Str);
    assert(decode_str_items(items) matches Some(fields) && fields =~= q.fields);
    let d = decode_query_json(j);
    assert(d is Some);
    assert(d->0.fields =~= q.fields);
    assert(d->0 == q);
}

/// The text-level corollary: any text that parses to the encoded document
/// of `q` decodes to `q` itself.
pub proof fn lemma_query_text_round_trip(q: JQLQueryV, t: Seq<char>)
    requires
        json_of(t) == Some(query_json(q)),
    ensures
        query_of_text(t) == Some(q),
{
    lemma_query_round_trip(q);
}

} // verus!
