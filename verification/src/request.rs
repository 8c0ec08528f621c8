//! Planning of the HTTP requests the workflow issues: for each endpoint, the
//! exact method, URL, JSON body, headers and timeout, stated as character
//! sequences and built by verified code.

use vstd::prelude::*;

verus! {

/// Read-only lookups are given this many seconds before they are abandoned.
pub const READ_TIMEOUT_SECS: u64 = 5;

/// Mutating calls are given this many seconds before they are abandoned.
pub const WRITE_TIMEOUT_SECS: u64 = 120;

#[derive(Clone, Copy, Debug, PartialEq, Eq, Structural)]
pub enum HttpMethod {
    Get,
    Post,
    Patch,
}

/// One fully planned request: everything the transport needs to issue it.
#[derive(Clone, Debug)]
pub struct HttpRequest {
    pub method: HttpMethod,
    pub url: String,
    /// The JSON payload; empty for a GET.
    pub body: String,
    /// The value of the `Authorization` header; empty when no token is held.
    pub authorization: String,
    /// The value of the `Accept` header.
    pub accept: String,
    /// The value of the `User-Agent` header.
    pub user_agent: String,
    pub timeout_secs: u64,
}

/// The common prefix of every endpoint of one repository.
pub open spec fn repo_url(owner: Seq<char>, repo: Seq<char>) -> Seq<char> {
    "https://api.github.com/repos/"@ + owner + "/"@ + repo
}

/// Where the head commit of a branch is looked up.
pub open spec fn head_lookup_url(owner: Seq<char>, repo: Seq<char>, branch: Seq<char>) -> Seq<
    char,
> {
    repo_url(owner, repo) + "/git/refs/heads/"@ + branch
}

/// Where a fully qualified ref (`refs/heads/...`) is read or force-updated.
pub open spec fn ref_url(owner: Seq<char>, repo: Seq<char>, gitref: Seq<char>) -> Seq<char> {
    repo_url(owner, repo) + "/git/"@ + gitref
}

/// Where a new ref is created.
pub open spec fn refs_url(owner: Seq<char>, repo: Seq<char>) -> Seq<char> {
    repo_url(owner, repo) + "/git/refs"@
}

/// Where a new tree is created.
pub open spec fn trees_url(owner: Seq<char>, repo: Seq<char>) -> Seq<char> {
    repo_url(owner, repo) + "/git/trees"@
}

/// Where one commit object is read.
pub open spec fn commit_lookup_url(owner: Seq<char>, repo: Seq<char>, sha: Seq<char>) -> Seq<
    char,
> {
    repo_url(owner, repo) + "/git/commits/"@ + sha
}

/// Where a new commit object is created.
pub open spec fn commits_url(owner: Seq<char>, repo: Seq<char>) -> Seq<char> {
    repo_url(owner, repo) + "/git/commits"@
}

/// Where a pull request is opened.
pub open spec fn pulls_url(owner: Seq<char>, repo: Seq<char>) -> Seq<char> {
    repo_url(owner, repo) + "/pulls"@
}

/// The payload that creates `gitref` pointing at `sha`.
pub open spec fn create_ref_body(gitref: Seq<char>, sha: Seq<char>) -> Seq<char> {
    "{\"ref\":\""@ + gitref + "\",\"sha\":\""@ + sha + "\"}"@
}

/// The payload that force-updates a ref to `sha`. The `force` flag is always
/// set, so the update is a plain pointer move, never a fast-forward check.
pub open spec fn update_ref_body(sha: Seq<char>) -> Seq<char> {
    "{\"sha\":\""@ + sha + "\","@ + "\"force\":true"@ + "}"@
}

/// The payload that layers the fixed file change on top of `base_tree`.
pub open spec fn create_tree_body(base_tree: Seq<char>) -> Seq<char> {
    "{\"base_tree\":\""@ + base_tree
        + "\",\"tree\":[{\"path\":\"README.md\",\"mode\":\"100644\",\"type\":\"blob\",\"content\":\"Hello World!\"}]}"@
}

/// A JSON string literal holding `s` (spliced verbatim, as the API values
/// involved never need escaping).
pub open spec fn quoted(s: Seq<char>) -> Seq<char> {
    "\""@ + s + "\""@
}

/// The elements, each quoted, separated by commas.
pub open spec fn comma_joined(elems: Seq<Seq<char>>) -> Seq<char>
    decreases elems.len(),
{
    if elems.len() == 0 {
        Seq::empty()
    } else if elems.len() == 1 {
        quoted(elems[0])
    } else {
        comma_joined(elems.drop_last()) + ","@ + quoted(elems.last())
    }
}

/// A JSON array of string literals.
pub open spec fn sha_array(elems: Seq<Seq<char>>) -> Seq<char> {
    "["@ + comma_joined(elems) + "]"@
}

/// The payload that creates a commit for `tree` with exactly `parents`.
pub open spec fn create_commit_body(tree: Seq<char>, parents: Seq<Seq<char>>) -> Seq<char> {
    "{\"message\":\"Update script\",\"tree\":\""@ + tree + "\",\"parents\":"@ + sha_array(parents)
        + "}"@
}

pub open spec fn json_bool(b: bool) -> Seq<char> {
    if b {
        "true"@
    } else {
        "false"@
    }
}

/// The payload that opens the pull request `head` -> `base`.
pub open spec fn create_pr_body(
    title: Seq<char>,
    head: Seq<char>,
    base: Seq<char>,
    maintainer_can_modify: bool,
    draft: bool,
) -> Seq<char> {
    "{\"title\":\""@ + title + "\",\"head\":\""@ + head + "\",\"base\":\""@ + base
        + "\",\"maintainer_can_modify\":"@ + json_bool(maintainer_can_modify) + ",\"draft\":"@
        + json_bool(draft) + "}"@
}

/// The `Authorization` header value for a token: `Token <t>`, or empty when
/// no token is held (the call then goes out unauthenticated).
pub fn authorization_value(token: Option<&str>) -> (r: String)
    ensures
        r@ == (match token {
            Some(t) => "Token "@ + t@,
            None => Seq::<char>::empty(),
        }),
{
    match token {
        Some(t) => {
            let mut s = String::new();
            s.append("Token ");
            s.append(t);
            s
        },
        None => String::new(),
    }
}

/// The fully qualified ref of a branch.
pub open spec fn spec_generated_ref(branch: Seq<char>) -> Seq<char> {
    "refs/heads/"@ + branch
}

/// Qualifies a bare branch name into `refs/heads/<branch>`.
pub fn generated_ref(branch: &str) -> (r: String)
    ensures
        r@ == spec_generated_ref(branch@),
{
    let mut s = String::new();
    s.append("refs/heads/");
    s.append(branch);
    s
}

/// The title the workflow gives its pull request.
pub open spec fn spec_pr_title(owner: Seq<char>, branch: Seq<char>, base: Seq<char>) -> Seq<
    char,
> {
    "This pull request created by "@ + owner + " merges "@ + branch + " into "@ + base
}

pub fn pr_title(owner: &str, branch: &str, base: &str) -> (r: String)
    ensures
        r@ == spec_pr_title(owner@, branch@, base@),
{
    let mut s = String::new();
    s.append("This pull request created by ");
    s.append(owner);
    s.append(" merges ");
    s.append(branch);
    s.append(" into ");
    s.append(base);
    s
}

fn repo_url_string(owner: &str, repo: &str) -> (r: String)
    ensures
        r@ == repo_url(owner@, repo@),
{
    let mut s = String::new();
    s.append("https://api.github.com/repos/");
    s.append(owner);
    s.append("/");
    s.append(repo);
    s
}

fn accept_value() -> (r: String)
    ensures
        r@ == "application/vnd.github.v3+json"@,
{
    let mut s = String::new();
    s.append("application/vnd.github.v3+json");
    s
}

fn agent_value(agent: &str) -> (r: String)
    ensures
        r@ == agent@,
{
    let mut s = String::new();
    s.append(agent);
    s
}

/// Plans the lookup of the head commit of `branch`.
pub fn resolve_head_request(owner: &str, repo: &str, branch: &str, auth: &str) -> (r: HttpRequest)
    ensures
        r.method == HttpMethod::Get,
        r.url@ == head_lookup_url(owner@, repo@, branch@),
        r.body@ == Seq::<char>::empty(),
        r.authorization@ == auth@,
        r.accept@ == "application/vnd.github.v3+json"@,
        r.user_agent@ == "acme-rs"@,
        r.timeout_secs == READ_TIMEOUT_SECS,
{
    let mut url = repo_url_string(owner, repo);
    url.append("/git/refs/heads/");
    url.append(branch);
    HttpRequest {
        method: HttpMethod::Get,
        url,
        body: String::new(),
        authorization: agent_value(auth),
        accept: accept_value(),
        user_agent: agent_value("acme-rs"),
        timeout_secs: READ_TIMEOUT_SECS,
    }
}

/// Plans the lookup that asks whether `gitref` already exists.
pub fn ref_lookup_request(owner: &str, repo: &str, gitref: &str, auth: &str) -> (r: HttpRequest)
    ensures
        r.method == HttpMethod::Get,
        r.url@ == ref_url(owner@, repo@, gitref@),
        r.body@ == Seq::<char>::empty(),
        r.authorization@ == auth@,
        r.accept@ == "application/vnd.github.v3+json"@,
        r.user_agent@ == "SIGSTORE"@,
        r.timeout_secs == READ_TIMEOUT_SECS,
{
    let mut url = repo_url_string(owner, repo);
    url.append("/git/");
    url.append(gitref);
    HttpRequest {
        method: HttpMethod::Get,
        url,
        body: String::new(),
        authorization: agent_value(auth),
        accept: accept_value(),
        user_agent: agent_value("SIGSTORE"),
        timeout_secs: READ_TIMEOUT_SECS,
    }
}

/// Plans the creation of `gitref` pointing at `sha`.
pub fn create_ref_request(
    owner: &str,
    repo: &str,
    gitref: &str,
    sha: &str,
    auth: &str,
) -> (r: HttpRequest)
    ensures
        r.method == HttpMethod::Post,
        r.url@ == refs_url(owner@, repo@),
        r.body@ == create_ref_body(gitref@, sha@),
        r.authorization@ == auth@,
        r.accept@ == "application/vnd.github.v3+json"@,
        r.user_agent@ == "SIGSTORE"@,
        r.timeout_secs == WRITE_TIMEOUT_SECS,
{
    let mut url = repo_url_string(owner, repo);
    url.append("/git/refs");
    let mut body = String::new();
    body.append("{\"ref\":\"");
    body.append(gitref);
    body.append("\",\"sha\":\"");
    body.append(sha);
    body.append("\"}");
    HttpRequest {
        method: HttpMethod::Post,
        url,
        body,
        authorization: agent_value(auth),
        accept: accept_value(),
        user_agent: agent_value("SIGSTORE"),
        timeout_secs: WRITE_TIMEOUT_SECS,
    }
}

/// Plans the tree creation that layers the fixed file change on `base_tree`.
pub fn create_tree_request(owner: &str, repo: &str, base_tree: &str, auth: &str) -> (r:
    HttpRequest)
    ensures
        r.method == HttpMethod::Post,
        r.url@ == trees_url(owner@, repo@),
        r.body@ == create_tree_body(base_tree@),
        r.authorization@ == auth@,
        r.accept@ == "application/vnd.github.v3+json"@,
        r.user_agent@ == "SIGSTORE"@,
        r.timeout_secs == WRITE_TIMEOUT_SECS,
{
    let mut url = repo_url_string(owner, repo);
    url.append("/git/trees");
    let mut body = String::new();
    body.append("{\"base_tree\":\"");
    body.append(base_tree);
    body.append(
        "\",\"tree\":[{\"path\":\"README.md\",\"mode\":\"100644\",\"type\":\"blob\",\"content\":\"Hello World!\"}]}",
    );
    HttpRequest {
        method: HttpMethod::Post,
        url,
        body,
        authorization: agent_value(auth),
        accept: accept_value(),
        user_agent: agent_value("SIGSTORE"),
        timeout_secs: WRITE_TIMEOUT_SECS,
    }
}

/// Plans the lookup of the commit object at `sha`, whose parents seed the
/// new commit.
pub fn resolve_parents_request(owner: &str, repo: &str, sha: &str, auth: &str) -> (r: HttpRequest)
    ensures
        r.method == HttpMethod::Get,
        r.url@ == commit_lookup_url(owner@, repo@, sha@),
        r.body@ == Seq::<char>::empty(),
        r.authorization@ == auth@,
        r.accept@ == "application/vnd.github.v3+json"@,
        r.user_agent@ == "acme-rs"@,
        r.timeout_secs == READ_TIMEOUT_SECS,
{
    let mut url = repo_url_string(owner, repo);
    url.append("/git/commits/");
    url.append(sha);
    HttpRequest {
        method: HttpMethod::Get,
        url,
        body: String::new(),
        authorization: agent_value(auth),
        accept: accept_value(),
        user_agent: agent_value("acme-rs"),
        timeout_secs: READ_TIMEOUT_SECS,
    }
}

/// Builds the JSON array of parent SHAs, in the order given.
fn sha_array_string(shas: &Vec<String>) -> (r: String)
    ensures
        r@ == sha_array(shas.deep_view()),
{
    let ghost dv: Seq<Seq<char>> = shas.deep_view();
    let mut out = String::new();
    out.append("[");
    let mut i: usize = 0;
    while i < shas.len()
        invariant
            i <= shas.len(),
            dv == shas.deep_view(),
            dv.len() == shas@.len(),
            out@ == "["@ + comma_joined(dv.take(i as int)),
        decreases shas.len() - i,
    {
        if i > 0 {
            out.append(",");
        }
        out.append("\"");
        out.append(shas[i].as_str());
        out.append("\"");
        proof {
            let prev = dv.take(i as int);
            let cur = dv.take(i as int + 1);
            assert(cur.drop_last() =~= prev);
            assert(cur.last() == dv[i as int]);
            assert(dv[i as int] == shas@[i as int]@);
            if i == 0 {
                assert(out@ =~= "["@ + comma_joined(cur));
            } else {
                assert(comma_joined(cur) == comma_joined(prev) + ","@ + quoted(dv[i as int]));
                assert(out@ =~= "["@ + comma_joined(cur));
            }
        }
        i += 1;
    }
    out.append("]");
    proof {
        assert(dv.take(dv.len() as int) =~= dv);
        assert(out@ =~= sha_array(dv));
    }
    out
}

/// Plans the commit creation for `tree` with exactly `parents`.
pub fn create_commit_request(
    owner: &str,
    repo: &str,
    tree: &str,
    parents: &Vec<String>,
    auth: &str,
) -> (r: HttpRequest)
    ensures
        r.method == HttpMethod::Post,
        r.url@ == commits_url(owner@, repo@),
        r.body@ == create_commit_body(tree@, parents.deep_view()),
        r.authorization@ == auth@,
        r.accept@ == "application/vnd.github.v3+json"@,
        r.user_agent@ == "SIGSTORE"@,
        r.timeout_secs == WRITE_TIMEOUT_SECS,
{
    let mut url = repo_url_string(owner, repo);
    url.append("/git/commits");
    let mut body = String::new();
    body.append("{\"message\":\"Update script\",\"tree\":\"");
    body.append(tree);
    body.append("\",\"parents\":");
    let arr = sha_array_string(parents);
    body.append(arr.as_str());
    body.append("}");
    HttpRequest {
        method: HttpMethod::Post,
        url,
        body,
        authorization: agent_value(auth),
        accept: accept_value(),
        user_agent: agent_value("SIGSTORE"),
        timeout_secs: WRITE_TIMEOUT_SECS,
    }
}

/// Plans the force-update of `gitref` to the fresh commit `sha`.
pub fn update_ref_request(
    owner: &str,
    repo: &str,
    gitref: &str,
    sha: &str,
    auth: &str,
) -> (r: HttpRequest)
    ensures
        r.method == HttpMethod::Patch,
        r.url@ == ref_url(owner@, repo@, gitref@),
        r.body@ == update_ref_body(sha@),
        r.authorization@ == auth@,
        r.accept@ == "application/vnd.github.v3+json"@,
        r.user_agent@ == "SIGSTORE"@,
        r.timeout_secs == WRITE_TIMEOUT_SECS,
{
    let mut url = repo_url_string(owner, repo);
    url.append("/git/");
    url.append(gitref);
    let mut body = String::new();
    body.append("{\"sha\":\"");
    body.append(sha);
    body.append("\",");
    body.append("\"force\":true");
    body.append("}");
    HttpRequest {
        method: HttpMethod::Patch,
        url,
        body,
        authorization: agent_value(auth),
        accept: accept_value(),
        user_agent: agent_value("SIGSTORE"),
        timeout_secs: WRITE_TIMEOUT_SECS,
    }
}

/// Plans the opening of the pull request `head` -> `base`.
pub fn open_pr_request(
    owner: &str,
    repo: &str,
    title: &str,
    head: &str,
    base: &str,
    maintainer_can_modify: bool,
    draft: bool,
    auth: &str,
) -> (r: HttpRequest)
    ensures
        r.method == HttpMethod::Post,
        r.url@ == pulls_url(owner@, repo@),
        r.body@ == create_pr_body(title@, head@, base@, maintainer_can_modify, draft),
        r.authorization@ == auth@,
        r.accept@ == "application/vnd.github.v3+json"@,
        r.user_agent@ == "SIGSTORE"@,
        r.timeout_secs == WRITE_TIMEOUT_SECS,
{
    let mut url = repo_url_string(owner, repo);
    url.append("/pulls");
    let mut body = String::new();
    body.append("{\"title\":\"");
    body.append(title);
    body.append("\",\"head\":\"");
    body.append(head);
    body.append("\",\"base\":\"");
    body.append(base);
    body.append("\",\"maintainer_can_modify\":");
    if maintainer_can_modify {
        body.append("true");
    } else {
        body.append("false");
    }
    body.append(",\"draft\":");
    if draft {
        body.append("true");
    } else {
        body.append("false");
    }
    body.append("}");
    HttpRequest {
        method: HttpMethod::Post,
        url,
        body,
        authorization: agent_value(auth),
        accept: accept_value(),
        user_agent: agent_value("SIGSTORE"),
        timeout_secs: WRITE_TIMEOUT_SECS,
    }
}

} // verus!
