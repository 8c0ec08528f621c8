//! The workflow driver: a step-by-step machine that plans each request,
//! interprets each response, and threads every value from one call into the
//! next. The caller performs the transport and feeds the outcome back in.

use vstd::prelude::*;
use crate::error::ReqError;
use crate::request::HttpMethod;
use crate::request::HttpRequest;
use crate::request::READ_TIMEOUT_SECS;
use crate::request::WRITE_TIMEOUT_SECS;
use crate::request::commit_lookup_url;
use crate::request::commits_url;
use crate::request::create_commit_body;
use crate::request::create_commit_request;
use crate::request::create_pr_body;
use crate::request::create_ref_body;
use crate::request::create_ref_request;
use crate::request::create_tree_body;
use crate::request::create_tree_request;
use crate::request::generated_ref;
use crate::request::head_lookup_url;
use crate::request::open_pr_request;
use crate::request::pulls_url;
use crate::request::ref_lookup_request;
use crate::request::ref_url;
use crate::request::refs_url;
use crate::request::resolve_head_request;
use crate::request::resolve_parents_request;
use crate::request::spec_generated_ref;
use crate::request::trees_url;
use crate::request::update_ref_body;
use crate::request::update_ref_request;
use crate::schema::Parent;
use crate::schema::ParentView;
use crate::status::classify_failure;
use crate::status::classify_head_failure;
use crate::status::is_success;
use crate::status::spec_classify_failure;
use crate::status::spec_classify_head_failure;
use crate::status::spec_is_success;

verus! {

/// Everything a run is given up front: the repository, the base branch, the
/// fresh branch name, the pull-request text and flags, and the
/// already-formatted `Authorization` header value.
#[derive(Clone, Debug)]
pub struct WorkflowConfig {
    pub owner: String,
    pub repo: String,
    pub base_branch: String,
    /// The bare name of the branch to create (no `refs/heads/` prefix).
    pub branch: String,
    pub title: String,
    pub authorization: String,
    pub maintainer_can_modify: bool,
    pub draft: bool,
}

pub struct ConfigView {
    pub owner: Seq<char>,
    pub repo: Seq<char>,
    pub base_branch: Seq<char>,
    pub branch: Seq<char>,
    pub title: Seq<char>,
    pub authorization: Seq<char>,
    pub maintainer_can_modify: bool,
    pub draft: bool,
}

impl View for WorkflowConfig {
    type V = ConfigView;

    open spec fn view(&self) -> ConfigView {
        ConfigView {
            owner: self.owner@,
            repo: self.repo@,
            base_branch: self.base_branch@,
            branch: self.branch@,
            title: self.title@,
            authorization: self.authorization@,
            maintainer_can_modify: self.maintainer_can_modify,
            draft: self.draft,
        }
    }
}

/// Where a run stands: which call comes next, carrying every value that
/// call needs, or how the run ended.
#[derive(Debug)]
pub enum Step {
    /// Look up the head commit of the base branch.
    ResolveHead,
    /// Ask whether the generated ref already exists.
    LookupRef { head_sha: String },
    /// The lookup answered 404: create the ref at the head commit.
    CreateRef { head_sha: String },
    /// Create the tree on top of the head commit.
    BuildTree { head_sha: String, ref_name: String },
    /// Read the head commit object for its parent list.
    ResolveParents { head_sha: String, ref_name: String, tree_sha: String },
    /// Create the commit for the tree with the reported parents.
    CreateCommit { ref_name: String, tree_sha: String, parent_shas: Vec<String> },
    /// Force-update the created ref to the fresh commit.
    UpdateRef { ref_name: String, commit_sha: String },
    /// Open the pull request from the new branch into the base branch.
    OpenPullRequest,
    /// The run finished; the pull request lives at this URL.
    Done { pr_url: String },
    /// The run stopped at the first failure.
    Failed { error: ReqError },
}

pub enum StepView {
    ResolveHead,
    LookupRef { head_sha: Seq<char> },
    CreateRef { head_sha: Seq<char> },
    BuildTree { head_sha: Seq<char>, ref_name: Seq<char> },
    ResolveParents { head_sha: Seq<char>, ref_name: Seq<char>, tree_sha: Seq<char> },
    CreateCommit { ref_name: Seq<char>, tree_sha: Seq<char>, parent_shas: Seq<Seq<char>> },
    UpdateRef { ref_name: Seq<char>, commit_sha: Seq<char> },
    OpenPullRequest,
    Done { pr_url: Seq<char> },
    Failed { error: ReqError },
}

impl View for Step {
    type V = StepView;

    open spec fn view(&self) -> StepView {
        match self {
            Step::ResolveHead => StepView::ResolveHead,
            Step::LookupRef { head_sha } => StepView::LookupRef { head_sha: head_sha@ },
            Step::CreateRef { head_sha } => StepView::CreateRef { head_sha: head_sha@ },
            Step::BuildTree { head_sha, ref_name } => StepView::BuildTree {
                head_sha: head_sha@,
                ref_name: ref_name@,
            },
            Step::ResolveParents { head_sha, ref_name, tree_sha } => StepView::ResolveParents {
                head_sha: head_sha@,
                ref_name: ref_name@,
                tree_sha: tree_sha@,
            },
            Step::CreateCommit { ref_name, tree_sha, parent_shas } => StepView::CreateCommit {
                ref_name: ref_name@,
                tree_sha: tree_sha@,
                parent_shas: parent_shas.deep_view(),
            },
            Step::UpdateRef { ref_name, commit_sha } => StepView::UpdateRef {
                ref_name: ref_name@,
                commit_sha: commit_sha@,
            },
            Step::OpenPullRequest => StepView::OpenPullRequest,
            Step::Done { pr_url } => StepView::Done { pr_url: pr_url@ },
            Step::Failed { error } => StepView::Failed { error: *error },
        }
    }
}

/// What the caller managed to read out of one response body, already
/// reduced to the fields the workflow consumes. `Unparsed` stands for a
/// body that did not have the expected shape.
#[derive(Debug)]
pub enum BodyData {
    Unparsed,
    RefData { ref_name: String, sha: String },
    TreeData { sha: String },
    CommitData { sha: String, parents: Vec<Parent> },
    PrData { url: String },
}

pub enum BodyDataView {
    Unparsed,
    RefData { ref_name: Seq<char>, sha: Seq<char> },
    TreeData { sha: Seq<char> },
    CommitData { sha: Seq<char>, parents: Seq<ParentView> },
    PrData { url: Seq<char> },
}

impl View for BodyData {
    type V = BodyDataView;

    open spec fn view(&self) -> BodyDataView {
        match self {
            BodyData::Unparsed => BodyDataView::Unparsed,
            BodyData::RefData { ref_name, sha } => BodyDataView::RefData {
                ref_name: ref_name@,
                sha: sha@,
            },
            BodyData::TreeData { sha } => BodyDataView::TreeData { sha: sha@ },
            BodyData::CommitData { sha, parents } => BodyDataView::CommitData {
                sha: sha@,
                parents: parents@.map_values(|p: Parent| p@),
            },
            BodyData::PrData { url } => BodyDataView::PrData { url: url@ },
        }
    }
}

/// How one call went: the transport failed outright, or a response arrived
/// with a status and whatever the caller could read from its body.
#[derive(Debug)]
pub enum CallOutcome {
    TransportError,
    Response { status: u16, body: BodyData },
}

pub enum OutcomeView {
    TransportError,
    Response { status: u16, body: BodyDataView },
}

impl View for CallOutcome {
    type V = OutcomeView;

    open spec fn view(&self) -> OutcomeView {
        match self {
            CallOutcome::TransportError => OutcomeView::TransportError,
            CallOutcome::Response { status, body } => OutcomeView::Response {
                status: *status,
                body: body@,
            },
        }
    }
}

/// Whether a run has ended, well or badly.
pub open spec fn is_terminal(s: StepView) -> bool {
    s is Done || s is Failed
}

/// The transition the machine makes on a response, from a state that still
/// has work to do.
pub open spec fn next_step_response(
    s: StepView,
    c: ConfigView,
    status: u16,
    body: BodyDataView,
) -> StepView {
    match s {
        StepView::ResolveHead => if !spec_is_success(status) {
            StepView::Failed { error: spec_classify_head_failure(status) }
        } else {
            match body {
                BodyDataView::RefData { sha, .. } => StepView::LookupRef { head_sha: sha },
                _ => StepView::Failed { error: ReqError::ConnectionError },
            }
        },
        StepView::LookupRef { head_sha } => if status == 404 {
            StepView::CreateRef { head_sha }
        } else {
            StepView::Failed { error: ReqError::BadRequest }
        },
        StepView::CreateRef { head_sha } => if !spec_is_success(status) {
            StepView::Failed { error: spec_classify_failure(status) }
        } else {
            match body {
                BodyDataView::RefData { .. } => StepView::BuildTree {
                    head_sha,
                    ref_name: spec_generated_ref(c.branch),
                },
                _ => StepView::Failed { error: ReqError::ConnectionError },
            }
        },
        StepView::BuildTree { head_sha, ref_name } => if !spec_is_success(status) {
            StepView::Failed { error: spec_classify_failure(status) }
        } else {
            match body {
                BodyDataView::TreeData { sha } => StepView::ResolveParents {
                    head_sha,
                    ref_name,
                    tree_sha: sha,
                },
                _ => StepView::Failed { error: ReqError::ConnectionError },
            }
        },
        StepView::ResolveParents { head_sha, ref_name, tree_sha } => if !spec_is_success(status) {
            StepView::Failed { error: spec_classify_failure(status) }
        } else {
            match body {
                BodyDataView::CommitData { parents, .. } => StepView::CreateCommit {
                    ref_name,
                    tree_sha,
                    parent_shas: parents.map_values(|p: ParentView| p.sha),
                },
                _ => StepView::Failed { error: ReqError::ConnectionError },
            }
        },
        StepView::CreateCommit { ref_name, tree_sha, parent_shas } => if !spec_is_success(status) {
            StepView::Failed { error: spec_classify_failure(status) }
        } else {
            match body {
                BodyDataView::CommitData { sha, .. } => StepView::UpdateRef {
                    ref_name,
                    commit_sha: sha,
                },
                _ => StepView::Failed { error: ReqError::ConnectionError },
            }
        },
        StepView::UpdateRef { ref_name, commit_sha } => if !spec_is_success(status) {
            StepView::Failed { error: spec_classify_failure(status) }
        } else {
            match body {
                BodyDataView::RefData { .. } => StepView::OpenPullRequest,
                _ => StepView::Failed { error: ReqError::ConnectionError },
            }
        },
        StepView::OpenPullRequest => if !spec_is_success(status) {
            StepView::Failed { error: spec_classify_failure(status) }
        } else {
            match body {
                BodyDataView::PrData { url } => StepView::Done { pr_url: url },
                _ => StepView::Failed { error: ReqError::ConnectionError },
            }
        },
        _ => s,
    }
}

/// The machine's transition function: what the next state is, given where
/// the run stands and how the call went. A terminal state absorbs every
/// outcome; a transport failure ends any other state as a connection error.
pub open spec fn next_step(s: StepView, c: ConfigView, o: OutcomeView) -> StepView {
    if is_terminal(s) {
        s
    } else {
        match o {
            OutcomeView::TransportError => StepView::Failed { error: ReqError::ConnectionError },
            OutcomeView::Response { status, body } => next_step_response(s, c, status, body),
        }
    }
}

/// Extracts the parent SHAs of a commit, in the order reported.
pub fn parent_shas(parents: &Vec<Parent>) -> (r: Vec<String>)
    ensures
        r.deep_view() == parents@.map_values(|p: Parent| p.sha@),
{
    let mut out: Vec<String> = Vec::new();
    let mut i: usize = 0;
    while i < parents.len()
        invariant
            i <= parents.len(),
            out@.len() == i,
            forall|j: int| 0 <= j < i ==> out@[j]@ == parents@[j].sha@,
        decreases parents.len() - i,
    {
        out.push(parents[i].sha.clone());
        i += 1;
    }
    proof {
        assert(out.deep_view() =~= parents@.map_values(|p: Parent| p.sha@));
    }
    out
}

/// Feeds one call's outcome into the machine and returns the next state.
pub fn step(state: Step, config: &WorkflowConfig, outcome: CallOutcome) -> (next: Step)
    ensures
        next@ == next_step(state@, config@, outcome@),
{
    match (state, outcome) {
        (Step::Done { pr_url }, _) => Step::Done { pr_url },
        (Step::Failed { error }, _) => Step::Failed { error },
        (_, CallOutcome::TransportError) => Step::Failed { error: ReqError::ConnectionError },
        (Step::ResolveHead, CallOutcome::Response { status, body }) => {
            if !is_success(status) {
                Step::Failed { error: classify_head_failure(status) }
            } else {
                match body {
                    BodyData::RefData { sha, .. } => Step::LookupRef { head_sha: sha },
                    _ => Step::Failed { error: ReqError::ConnectionError },
                }
            }
        },
        (Step::LookupRef { head_sha }, CallOutcome::Response { status, .. }) => {
            if status == 404 {
                Step::CreateRef { head_sha }
            } else {
                Step::Failed { error: ReqError::BadRequest }
            }
        },
        (Step::CreateRef { head_sha }, CallOutcome::Response { status, body }) => {
            if !is_success(status) {
                Step::Failed { error: classify_failure(status) }
            } else {
                match body {
                    BodyData::RefData { .. } => Step::BuildTree {
                        head_sha,
                        ref_name: generated_ref(config.branch.as_str()),
                    },
                    _ => Step::Failed { error: ReqError::ConnectionError },
                }
            }
        },
        (Step::BuildTree { head_sha, ref_name }, CallOutcome::Response { status, body }) => {
            if !is_success(status) {
                Step::Failed { error: classify_failure(status) }
            } else {
                match body {
                    BodyData::TreeData { sha } => Step::ResolveParents {
                        head_sha,
                        ref_name,
                        tree_sha: sha,
                    },
                    _ => Step::Failed { error: ReqError::ConnectionError },
                }
            }
        },
        (
            Step::ResolveParents { head_sha: _, ref_name, tree_sha },
            CallOutcome::Response { status, body },
        ) => {
            if !is_success(status) {
                Step::Failed { error: classify_failure(status) }
            } else {
                match body {
                    BodyData::CommitData { sha: _, parents } => {
                        let shas = parent_shas(&parents);
                        proof {
                            assert(shas.deep_view() =~= parents@.map_values(|p: Parent| p@)
                                .map_values(|pv: ParentView| pv.sha));
                        }
                        Step::CreateCommit { ref_name, tree_sha, parent_shas: shas }
                    },
                    _ => Step::Failed { error: ReqError::ConnectionError },
                }
            }
        },
        (
            Step::CreateCommit { ref_name, tree_sha: _, parent_shas: _ },
            CallOutcome::Response { status, body },
        ) => {
            if !is_success(status) {
                Step::Failed { error: classify_failure(status) }
            } else {
                match body {
                    BodyData::CommitData { sha, .. } => Step::UpdateRef {
                        ref_name,
                        commit_sha: sha,
                    },
                    _ => Step::Failed { error: ReqError::ConnectionError },
                }
            }
        },
        (Step::UpdateRef { .. }, CallOutcome::Response { status, body }) => {
            if !is_success(status) {
                Step::Failed { error: classify_failure(status) }
            } else {
                match body {
                    BodyData::RefData { .. } => Step::OpenPullRequest,
                    _ => Step::Failed { error: ReqError::ConnectionError },
                }
            }
        },
        (Step::OpenPullRequest, CallOutcome::Response { status, body }) => {
            if !is_success(status) {
                Step::Failed { error: classify_failure(status) }
            } else {
                match body {
                    BodyData::PrData { url } => Step::Done { pr_url: url },
                    _ => Step::Failed { error: ReqError::ConnectionError },
                }
            }
        },
    }
}

/// What request each state plans: the exact method, URL, body, credential
/// and timeout, and that an ended run plans nothing.
pub open spec fn planned_request(s: StepView, c: ConfigView, r: Option<HttpRequest>) -> bool {
    match s {
        StepView::ResolveHead => (r matches Some(q) && q.method == HttpMethod::Get && q.url@
            == head_lookup_url(c.owner, c.repo, c.base_branch) && q.body@ == Seq::<char>::empty()
            && q.authorization@ == c.authorization && q.timeout_secs == READ_TIMEOUT_SECS),
        StepView::LookupRef { head_sha } => (r matches Some(q) && q.method == HttpMethod::Get
            && q.url@ == ref_url(c.owner, c.repo, spec_generated_ref(c.branch)) && q.body@
            == Seq::<char>::empty() && q.authorization@ == c.authorization && q.timeout_secs
            == READ_TIMEOUT_SECS),
        StepView::CreateRef { head_sha } => (r matches Some(q) && q.method == HttpMethod::Post
            && q.url@ == refs_url(c.owner, c.repo) && q.body@ == create_ref_body(
            spec_generated_ref(c.branch),
            head_sha,
        ) && q.authorization@ == c.authorization && q.timeout_secs == WRITE_TIMEOUT_SECS),
        StepView::BuildTree { head_sha, ref_name } => (r matches Some(q) && q.method
            == HttpMethod::Post && q.url@ == trees_url(c.owner, c.repo) && q.body@
            == create_tree_body(head_sha) && q.authorization@ == c.authorization && q.timeout_secs
            == WRITE_TIMEOUT_SECS),
        StepView::ResolveParents { head_sha, ref_name, tree_sha } => (r matches Some(q) && q.method
            == HttpMethod::Get && q.url@ == commit_lookup_url(c.owner, c.repo, head_sha) && q.body@
            == Seq::<char>::empty() && q.authorization@ == c.authorization && q.timeout_secs
            == READ_TIMEOUT_SECS),
        StepView::CreateCommit { ref_name, tree_sha, parent_shas } => (r matches Some(q)
            && q.method == HttpMethod::Post && q.url@ == commits_url(c.owner, c.repo) && q.body@
            == create_commit_body(tree_sha, parent_shas) && q.authorization@ == c.authorization
            && q.timeout_secs == WRITE_TIMEOUT_SECS),
        StepView::UpdateRef { ref_name, commit_sha } => (r matches Some(q) && q.method
            == HttpMethod::Patch && q.url@ == ref_url(c.owner, c.repo, ref_name) && q.body@
            == update_ref_body(commit_sha) && q.authorization@ == c.authorization && q.timeout_secs
            == WRITE_TIMEOUT_SECS),
        StepView::OpenPullRequest => (r matches Some(q) && q.method == HttpMethod::Post && q.url@
            == pulls_url(c.owner, c.repo) && q.body@ == create_pr_body(
            c.title,
            c.branch,
            c.base_branch,
            c.maintainer_can_modify,
            c.draft,
        ) && q.authorization@ == c.authorization && q.timeout_secs == WRITE_TIMEOUT_SECS),
        StepView::Done { pr_url } => r is None,
        StepView::Failed { error } => r is None,
    }
}

/// Plans the request the given state is about to issue, or nothing when the
/// run has ended.
pub fn request_for(state: &Step, config: &WorkflowConfig) -> (r: Option<HttpRequest>)
    ensures
        planned_request(state@, config@, r),
{
    match state {
        Step::ResolveHead => Some(
            resolve_head_request(
                config.owner.as_str(),
                config.repo.as_str(),
                config.base_branch.as_str(),
                config.authorization.as_str(),
            ),
        ),
        Step::LookupRef { .. } => {
            let gitref = generated_ref(config.branch.as_str());
            Some(
                ref_lookup_request(
                    config.owner.as_str(),
                    config.repo.as_str(),
                    gitref.as_str(),
                    config.authorization.as_str(),
                ),
            )
        },
        Step::CreateRef { head_sha } => {
            let gitref = generated_ref(config.branch.as_str());
            Some(
                create_ref_request(
                    config.owner.as_str(),
                    config.repo.as_str(),
                    gitref.as_str(),
                    head_sha.as_str(),
                    config.authorization.as_str(),
                ),
            )
        },
        Step::BuildTree { head_sha, .. } => Some(
            create_tree_request(
                config.owner.as_str(),
                config.repo.as_str(),
                head_sha.as_str(),
                config.authorization.as_str(),
            ),
        ),
        Step::ResolveParents { head_sha, .. } => Some(
            resolve_parents_request(
                config.owner.as_str(),
                config.repo.as_str(),
                head_sha.as_str(),
                config.authorization.as_str(),
            ),
        ),
        Step::CreateCommit { tree_sha, parent_shas, .. } => Some(
            create_commit_request(
                config.owner.as_str(),
                config.repo.as_str(),
                tree_sha.as_str(),
                parent_shas,
                config.authorization.as_str(),
            ),
        ),
        Step::UpdateRef { ref_name, commit_sha } => Some(
            update_ref_request(
                config.owner.as_str(),
                config.repo.as_str(),
                ref_name.as_str(),
                commit_sha.as_str(),
                config.authorization.as_str(),
            ),
        ),
        Step::OpenPullRequest => Some(
            open_pr_request(
                config.owner.as_str(),
                config.repo.as_str(),
                config.title.as_str(),
                config.branch.as_str(),
                config.base_branch.as_str(),
                config.maintainer_can_modify,
                config.draft,
                config.authorization.as_str(),
            ),
        ),
        Step::Done { .. } => None,
        Step::Failed { .. } => None,
    }
}

} // verus!
