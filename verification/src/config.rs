//! The program configuration: connection data and personal defaults.
//!
//! Reading and writing the configuration file is I/O and stays with the
//! caller; this module holds the configuration itself, the extraction
//! helper its loader uses, and the standing queries built from it.

use vstd::prelude::*;

use crate::error::Error;
use crate::text::{join_seq, join_with};
use vstd::string::StringExecFns;

verus! {

/// Defaults applied when creating a new issue.
pub struct Defaults {
    pub project_key: String,
    pub assignee: String,
    pub labels: Vec<String>,
}

/// Mathematical view of [`Defaults`].
pub struct DefaultsV {
    pub project_key: Seq<char>,
    pub assignee: Seq<char>,
    pub labels: Seq<Seq<char>>,
}

impl View for Defaults {
    type V = DefaultsV;

    open spec fn view(&self) -> DefaultsV {
        DefaultsV {
            project_key: self.project_key@,
            assignee: self.assignee@,
            labels: self.labels.deep_view(),
        }
    }
}

/// The loaded configuration.
pub struct Config {
    pub jira_url: String,
    pub auth: String,
    pub username: String,
    pub projects: Vec<String>,
    pub npc_users: Vec<String>,
    pub open_in_browser: bool,
    pub browser_command: String,
    pub defaults: Defaults,
}

/// Mathematical view of [`Config`].
pub struct ConfigV {
    pub jira_url: Seq<char>,
    pub auth: Seq<char>,
    pub username: Seq<char>,
    pub projects: Seq<Seq<char>>,
    pub npc_users: Seq<Seq<char>>,
    pub open_in_browser: bool,
    pub browser_command: Seq<char>,
    pub defaults: DefaultsV,
}

impl View for Config {
    type V = ConfigV;

    open spec fn view(&self) -> ConfigV {
        ConfigV {
            jira_url: self.jira_url@,
            auth: self.auth@,
            username: self.username@,
            projects: self.projects.deep_view(),
            npc_users: self.npc_users.deep_view(),
            open_in_browser: self.open_in_browser,
            browser_command: self.browser_command@,
            defaults: self.defaults@,
        }
    }
}

/// Turns an absent configuration value into the invalid-config error, so a
/// loader can demand each field it needs.
pub fn extract<T, F: Fn() -> Option<T>>(extractor: F) -> (r: Result<T, Error>)
    requires
        call_requires(extractor, ()),
    ensures
        r matches Ok(v) ==> call_ensures(extractor, (), Some(v)),
        r matches Err(e) ==> e is InvalidConfig && call_ensures(extractor, (), None::<T>),
{
    match extractor() {
        Some(val) => Ok(val),
        None => Err(Error::InvalidConfig),
    }
}

impl Config {
    /// The configured project keys, joined for a query's `in (...)` list.
    pub fn projects(&self) -> (r: String)
        ensures
            r@ == join_seq(self@.projects, ", "@),
    {
        join_with(&self.projects, ", ")
    }

    /// The configured placeholder users, joined the same way.
    pub fn npc_users(&self) -> (r: String)
        ensures
            r@ == join_seq(self@.npc_users, ", "@),
    {
        join_with(&self.npc_users, ", ")
    }

    /// The standing query behind the issue listing: every open issue of the
    /// configured projects.
    pub fn list_query(&self) -> (r: String)
        ensures
            r@ == "project in ("@ + join_seq(self@.projects, ", "@)
                + ") AND status not in (Resolved, Closed)"@,
    {
        let mut r = "project in (".to_owned();
        r.append(self.projects().as_str());
        r.append(") AND status not in (Resolved, Closed)");
        r
    }

    /// The standing query behind the current-work listing: open issues of
    /// the configured projects assigned to the configured user.
    pub fn current_query(&self) -> (r: String)
        ensures
            r@ == "project in ("@ + join_seq(self@.projects, ", "@) + ") AND assignee = "@
                + self@.username + " AND status not in (Resolved, Closed)"@,
    {
        let mut r = "project in (".to_owned();
        r.append(self.projects().as_str());
        r.append(") AND assignee = ");
        r.append(self.username.as_str());
        r.append(" AND status not in (Resolved, Closed)");
        r
    }

    /// The standing query behind the next-work listing: open issues of the
    /// configured projects assigned to a placeholder user.
    pub fn next_query(&self) -> (r: String)
        ensures
            r@ == "project in ("@ + join_seq(self@.projects, ", "@)
                + ") AND status = Open AND assignee in ("@ + join_seq(self@.npc_users, ", "@)
                + ")"@,
    {
        let mut r = "project in (".to_owned();
        r.append(self.projects().as_str());
        r.append(") AND status = Open AND assignee in (");
        r.append(self.npc_users().as_str());
        r.append(")");
        r
    }
}

} // verus!
