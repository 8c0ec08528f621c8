//! The response records the workflow reads, reduced to the fields it
//! actually consumes, as plain values.

use vstd::prelude::*;

verus! {

/// One parent of a commit, as the commit endpoint reports it.
#[derive(Clone, Debug)]
pub struct Parent {
    pub sha: String,
    pub url: String,
    pub html_url: String,
}

/// The mathematical value of a [`Parent`]: its fields as character sequences.
pub struct ParentView {
    pub sha: Seq<char>,
    pub url: Seq<char>,
    pub html_url: Seq<char>,
}

impl View for Parent {
    type V = ParentView;

    open spec fn view(&self) -> ParentView {
        ParentView { sha: self.sha@, url: self.url@, html_url: self.html_url@ }
    }
}

/// A team whose review was requested on a pull request.
#[derive(Clone, Debug, PartialEq, Eq, Hash)]
pub struct RequestedTeam {
    pub id: i64,
    pub node_id: String,
    pub url: String,
    pub html_url: String,
    pub name: String,
    pub slug: String,
    pub description: String,
    pub privacy: String,
    pub permission: String,
    pub members_url: String,
    pub repositories_url: String,
}

/// The access levels a user holds on a repository.
#[derive(Clone, Copy, Debug, PartialEq, Eq, Hash)]
pub struct Permissions {
    pub admin: bool,
    pub push: bool,
    pub pull: bool,
    pub triage: bool,
    pub maintain: bool,
}

} // verus!
