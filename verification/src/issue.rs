//! The normalized in-memory issue representation and its collection.
//!
//! Normalization applies the `"Unknown"` fallback policy once, here, so
//! presentation code downstream never handles an absent value; it also
//! derives the human browse URL and reverses the tracker's list order.

use vstd::prelude::*;

use std::collections::HashMap;

use crate::codec::{decode_issue_fields_json, decode_issue_json};
use crate::jira_data::{display_name_of, IssueResponse, IssueResponseList, IssueResponseV};
use crate::json::Json;
use crate::text::{copy_strings, decimal_string, join_seq, join_with, spec_decimal, str_eq};
use crate::urls::{browse_url_of, derive_browse_url};

verus! {

/// One issue, normalized for display: every field is a present string.
#[derive(Debug)]
pub struct Issue {
    pub self_url: String,
    pub key: String,
    pub summary: String,
    pub status: String,
    pub assignee: String,
    pub reporter: String,
    pub labels: Vec<String>,
    pub browse_url: String,
}

/// Mathematical view of [`Issue`].
pub struct IssueV {
    pub self_url: Seq<char>,
    pub key: Seq<char>,
    pub summary: Seq<char>,
    pub status: Seq<char>,
    pub assignee: Seq<char>,
    pub reporter: Seq<char>,
    pub labels: Seq<Seq<char>>,
    pub browse_url: Seq<char>,
}

impl View for Issue {
    type V = IssueV;

    open spec fn view(&self) -> IssueV {
        IssueV {
            self_url: self.self_url@,
            key: self.key@,
            summary: self.summary@,
            status: self.status@,
            assignee: self.assignee@,
            reporter: self.reporter@,
            labels: self.labels.deep_view(),
            browse_url: self.browse_url@,
        }
    }
}

/// What normalization does to one wire issue: keys and summary pass
/// through, status, assignee and reporter fall back to `"Unknown"` where
/// absent, and the browse URL is derived from the self link.
pub open spec fn normalize_issue(r: IssueResponseV) -> IssueV {
    IssueV {
        self_url: r.self_url,
        key: r.key,
        summary: r.fields.summary,
        status: match r.fields.status {
            Some(s) => s.name,
            None => "Unknown"@,
        },
        assignee: display_name_of(r.fields.assignee),
        reporter: match r.fields.reporter {
            Some(u) => display_name_of(u),
            None => "Unknown"@,
        },
        labels: r.fields.labels,
        browse_url: browse_url_of(r.self_url, r.key),
    }
}

/// The placeholder a table shows for a column the issue does not have.
pub open spec fn missing_column_text() -> Seq<char> {
    "<key missing>"@
}

/// The value of one named column of a normalized issue; labels are joined
/// with `", "`. `None` for a name that is no column.
pub open spec fn spec_field(v: IssueV, name: Seq<char>) -> Option<Seq<char>> {
    if name == "self_url"@ {
        Some(v.self_url)
    } else if name == "key"@ {
        Some(v.key)
    } else if name == "summary"@ {
        Some(v.summary)
    } else if name == "status"@ {
        Some(v.status)
    } else if name == "assignee"@ {
        Some(v.assignee)
    } else if name == "reporter"@ {
        Some(v.reporter)
    } else if name == "labels"@ {
        Some(join_seq(v.labels, ", "@))
    } else if name == "browse_url"@ {
        Some(v.browse_url)
    } else {
        None
    }
}

impl Issue {
    /// Normalizes one wire issue. A self link that does not parse leaves
    /// the browse URL empty; it never fails the normalization.
    pub fn from_issue_response(response: &IssueResponse) -> (r: Issue)
        ensures
            r@ == normalize_issue(response@),
    {
        let browse_url = derive_browse_url(response.self_url.as_str(), response.key.as_str());
        let status = match &response.fields.status {
            Some(s) => s.name.clone(),
            None => "Unknown".to_owned(),
        };
        let assignee = response.fields.assignee.display_name();
        let reporter = match &response.fields.reporter {
            Some(u) => u.display_name(),
            None => "Unknown".to_owned(),
        };
        Issue {
            self_url: response.self_url.clone(),
            key: response.key.clone(),
            summary: response.fields.summary.clone(),
            status,
            assignee,
            reporter,
            labels: copy_strings(&response.fields.labels),
            browse_url,
        }
    }

    /// Normalizes a whole search response, reversing the tracker's order:
    /// the first issue of the result is the last of the response, and the
    /// last is the first, for any length.
    pub fn issues_from_response(response_list: &IssueResponseList) -> (r: IssueVec)
        ensures
            r@.len() == response_list@.issues.len(),
            forall|i: int|
                0 <= i < r@.len() ==> r@[i] == normalize_issue(
                    response_list@.issues[r@.len() - 1 - i],
                ),
    {
        let n: usize = response_list.issues.len();
        let mut out: Vec<Issue> = Vec::new();
        let mut i: usize = n;
        while i > 0
            invariant
                i <= n,
                n == response_list.issues@.len(),
                out@.len() == n - i,
                forall|k: int|
                    0 <= k < out@.len() ==> #[trigger] out@[k]@ == normalize_issue(
                        response_list@.issues[n - 1 - k],
                    ),
            decreases i,
        {
            i -= 1;
            out.push(Issue::from_issue_response(&response_list.issues[i]));
        }
        IssueVec(out)
    }

    /// The issue's one-line summary, as its display form shows it.
    pub fn summary_line(&self) -> (r: String)
        ensures
            r@ == self@.key + ": "@ + self@.summary + " assigned: "@ + self@.assignee
                + " status: "@ + self@.status,
    {
        let mut r = self.key.clone();
        r.append(": ");
        r.append(self.summary.as_str());
        r.append(" assigned: ");
        r.append(self.assignee.as_str());
        r.append(" status: ");
        r.append(self.status.as_str());
        r
    }

    /// The value of one named column, `None` for an unknown name.
    pub fn field(&self, name: &str) -> (r: Option<String>)
        ensures
            r is Some <==> spec_field(self@, name@) is Some,
            r matches Some(s) ==> spec_field(self@, name@) == Some(s@),
    {
        if str_eq(name, "self_url") {
            Some(self.self_url.clone())
        } else if str_eq(name, "key") {
            Some(self.key.clone())
        } else if str_eq(name, "summary") {
            Some(self.summary.clone())
        } else if str_eq(name, "status") {
            Some(self.status.clone())
        } else if str_eq(name, "assignee") {
            Some(self.assignee.clone())
        } else if str_eq(name, "reporter") {
            Some(self.reporter.clone())
        } else if str_eq(name, "labels") {
            Some(join_with(&self.labels, ", "))
        } else if str_eq(name, "browse_url") {
            Some(self.browse_url.clone())
        } else {
            None
        }
    }

    /// The label/value rows of the issue's detail table: the fixed six
    /// rows, and a labels row only where the issue has labels.
    pub fn detail_rows(&self) -> (r: Vec<(String, String)>)
        ensures
            Seq::new(r@.len(), |i: int| (r@[i].0@, r@[i].1@)) == spec_detail_rows(self@),
    {
        let mut r: Vec<(String, String)> = Vec::new();
        r.push(("Summary".to_owned(), self.summary.clone()));
        r.push(("Url".to_owned(), self.browse_url.clone()));
        r.push(("Key".to_owned(), self.key.clone()));
        r.push(("Status".to_owned(), self.status.clone()));
        r.push(("Reporter".to_owned(), self.reporter.clone()));
        r.push(("Assignee".to_owned(), self.assignee.clone()));
        if !self.labels.is_empty() {
            r.push(("Labels".to_owned(), join_with(&self.labels, ", ")));
        }
        proof {
            assert(Seq::new(r@.len(), |i: int| (r@[i].0@, r@[i].1@)) =~= spec_detail_rows(self@));
        }
        r
    }

    /// The issue's columns as a map from column name to value, the labels
    /// joined with `", "`. The map holds exactly the eight column names,
    /// pinned down under the standard conditions for reasoning about a
    /// `HashMap`.
    pub fn as_hash_map(&self) -> (r: HashMap<&str, String>)
        ensures
            vstd::std_specs::hash::obeys_key_model::<&str>() ==> {
                &&& r@.len() == 8
                &&& r@.contains_key("self_url") && r@["self_url"]@ == self@.self_url
                &&& r@.contains_key("key") && r@["key"]@ == self@.key
                &&& r@.contains_key("summary") && r@["summary"]@ == self@.summary
                &&& r@.contains_key("status") && r@["status"]@ == self@.status
                &&& r@.contains_key("assignee") && r@["assignee"]@ == self@.assignee
                &&& r@.contains_key("reporter") && r@["reporter"]@ == self@.reporter
                &&& r@.contains_key("labels") && r@["labels"]@ == join_seq(self@.labels, ", "@)
                &&& r@.contains_key("browse_url") && r@["browse_url"]@ == self@.browse_url
            },
    {
        let labels = join_with(&self.labels, ", ");
        let mut map: HashMap<&str, String> = HashMap::new();
        map.insert("self_url", self.self_url.clone());
        map.insert("key", self.key.clone());
        map.insert("summary", self.summary.clone());
        map.insert("status", self.status.clone());
        map.insert("assignee", self.assignee.clone());
        map.insert("reporter", self.reporter.clone());
        map.insert("labels", labels);
        map.insert("browse_url", self.browse_url.clone());
        proof {
            reveal_strlit("self_url");
            reveal_strlit("key");
            reveal_strlit("summary");
            reveal_strlit("status");
            reveal_strlit("assignee");
            reveal_strlit("reporter");
            reveal_strlit("labels");
            reveal_strlit("browse_url");
            assert("self_url"@[0] == 's' && "assignee"@[0] == 'a' && "reporter"@[0] == 'r'
                && "status"@[0] == 's' && "labels"@[0] == 'l');
            assert("self_url"@ != "assignee"@ && "self_url"@ != "reporter"@ && "assignee"@
                != "reporter"@ && "status"@ != "labels"@);
        }
        map
    }
}

/// An ordered collection of normalized issues, already reversed for
/// display.
#[derive(Debug)]
pub struct IssueVec(Vec<Issue>);

impl View for IssueVec {
    type V = Seq<IssueV>;

    closed spec fn view(&self) -> Seq<IssueV> {
        Seq::new(self.0@.len(), |i: int| self.0@[i]@)
    }
}

/// The label/value rows of one issue's detail table.
pub open spec fn spec_detail_rows(v: IssueV) -> Seq<(Seq<char>, Seq<char>)> {
    let base = seq![
        ("Summary"@, v.summary),
        ("Url"@, v.browse_url),
        ("Key"@, v.key),
        ("Status"@, v.status),
        ("Reporter"@, v.reporter),
        ("Assignee"@, v.assignee),
    ];
    if v.labels.len() == 0 {
        base
    } else {
        base.push(("Labels"@, join_seq(v.labels, ", "@)))
    }
}

/// The column set of the unfiltered listing table.
pub open spec fn default_table_columns() -> Seq<Seq<char>> {
    seq!["key"@, "reporter"@, "assignee"@, "status"@, "summary"@, "labels"@]
}

/// One table row of a filtered projection: the one-based position, then
/// each requested column's value, with a placeholder for unknown names.
pub open spec fn spec_row(v: IssueV, idx: nat, fields: Seq<Seq<char>>) -> Seq<Seq<char>> {
    seq![spec_decimal(idx + 1)] + Seq::new(
        fields.len(),
        |j: int|
            match spec_field(v, fields[j]) {
                Some(s) => s,
                None => missing_column_text(),
            },
    )
}

impl IssueVec {
    /// True exactly when the collection holds no issue.
    pub fn is_empty(&self) -> (r: bool)
        ensures
            r <==> self@.len() == 0,
    {
        self.0.is_empty()
    }

    /// The issue at `idx`, `None` past the end.
    pub fn get(&self, idx: usize) -> (r: Option<&Issue>)
        ensures
            idx < self@.len() ==> (r matches Some(x) && x@ == self@[idx as int]),
            idx >= self@.len() ==> r is None,
    {
        if idx < self.0.len() {
            Some(&self.0[idx])
        } else {
            None
        }
    }

    /// The data rows of the unfiltered listing table: the filtered rows
    /// over the standard column set.
    pub fn as_table_rows(&self) -> (rows: Vec<Vec<String>>)
        ensures
            rows.deep_view() == Seq::new(
                self@.len(),
                |i: int| spec_row(self@[i], i as nat, default_table_columns()),
            ),
    {
        let columns: Vec<String> = vec![
            "key".to_owned(),
            "reporter".to_owned(),
            "assignee".to_owned(),
            "status".to_owned(),
            "summary".to_owned(),
            "labels".to_owned(),
        ];
        proof {
            assert(columns.deep_view() =~= default_table_columns());
        }
        self.as_filtered_rows(&columns)
    }

    /// The data rows of a table over the requested columns: one row per
    /// issue, in collection order, each row led by its one-based position.
    pub fn as_filtered_rows(&self, fields: &Vec<String>) -> (rows: Vec<Vec<String>>)
        ensures
            rows.deep_view() == Seq::new(
                self@.len(),
                |i: int| spec_row(self@[i], i as nat, fields.deep_view()),
            ),
    {
        let mut rows: Vec<Vec<String>> = Vec::new();
        let mut i: usize = 0;
        while i < self.0.len()
            invariant
                i <= self.0@.len(),
                rows@.len() == i,
                forall|k: int|
                    0 <= k < i ==> #[trigger] rows@[k].deep_view() == spec_row(
                        self@[k],
                        k as nat,
                        fields.deep_view(),
                    ),
            decreases self.0@.len() - i,
        {
            let issue = &self.0[i];
            let mut row: Vec<String> = Vec::new();
            row.push(decimal_string((i + 1) as u64));
            let mut j: usize = 0;
            while j < fields.len()
                invariant
                    j <= fields@.len(),
                    row@.len() == j + 1,
                    row@[0]@ == spec_decimal(i as nat + 1),
                    forall|k: int|
                        1 <= k < j + 1 ==> #[trigger] row@[k]@ == match spec_field(
                            issue@,
                            fields.deep_view()[k - 1],
                        ) {
                            Some(s) => s,
                            None => missing_column_text(),
                        },
                decreases fields@.len() - j,
            {
                match issue.field(fields[j].as_str()) {
                    Some(s) => row.push(s),
                    None => row.push("<key missing>".to_owned()),
                }
                j += 1;
            }
            proof {
                assert(issue@ == self@[i as int]);
                assert(row.deep_view() =~= spec_row(self@[i as int], i as nat, fields.deep_view()));
            }
            rows.push(row);
            i += 1;
        }
        proof {
            assert(rows.deep_view() =~= Seq::new(
                self@.len(),
                |i: int| spec_row(self@[i], i as nat, fields.deep_view()),
            ));
        }
        rows
    }
}

/// The `"Unknown"` fallbacks, stated against the wire: a decoded issue
/// whose field object lacks `assignee`, `reporter` or `status` (or holds
/// null there) normalizes to the literal `"Unknown"` in that place.
pub proof fn lemma_unknown_fallbacks(j: Json)
    requires
        decode_issue_json(j) is Some,
    ensures
        j.field("fields"@) matches Some(f) ==> {
            &&& (f.field("assignee"@) is None || f.field("assignee"@) == Some(Json::Null))
                ==> normalize_issue(decode_issue_json(j)->0).assignee == "Unknown"@
            &&& (f.field("reporter"@) is None || f.field("reporter"@) == Some(Json::Null))
                ==> normalize_issue(decode_issue_json(j)->0).reporter == "Unknown"@
            &&& (f.field("status"@) is None || f.field("status"@) == Some(Json::Null))
                ==> normalize_issue(decode_issue_json(j)->0).status == "Unknown"@
        },
{
    let f = j.field("fields"@)->0;
    let d = decode_issue_fields_json(f);
    assert(d is Some);
    assert(decode_issue_json(j)->0.fields == d->0);
}

} // verus!
