use refflow::error::ReqError;
use refflow::request::HttpMethod;
use refflow::schema::Parent;
use refflow::workflow::{
    parent_shas, request_for, step, BodyData, CallOutcome, Step, WorkflowConfig,
};

fn config() -> WorkflowConfig {
    WorkflowConfig {
        owner: "o".to_string(),
        repo: "r".to_string(),
        base_branch: "main".to_string(),
        branch: "482913".to_string(),
        title: "This pull request created by o merges 482913 into main".to_string(),
        authorization: "".to_string(),
        maintainer_can_modify: true,
        draft: false,
    }
}

fn parent(sha: &str) -> Parent {
    Parent {
        sha: sha.to_string(),
        url: format!("https://api.github.com/repos/o/r/git/commits/{}", sha),
        html_url: format!("https://github.com/o/r/commit/{}", sha),
    }
}

fn response(status: u16, body: BodyData) -> CallOutcome {
    CallOutcome::Response { status, body }
}

fn ref_body(name: &str, sha: &str) -> BodyData {
    BodyData::RefData {
        ref_name: name.to_string(),
        sha: sha.to_string(),
    }
}

#[test]
fn missing_ref_routes_to_creation() {
    let cfg = config();
    let state = Step::LookupRef {
        head_sha: "abc123".to_string(),
    };
    let next = step(state, &cfg, response(404, BodyData::Unparsed));
    match next {
        Step::CreateRef { head_sha } => assert_eq!(head_sha, "abc123"),
        other => panic!("expected CreateRef, got {:?}", other),
    }
}

#[test]
fn existing_ref_is_an_error() {
    let cfg = config();
    let state = Step::LookupRef {
        head_sha: "abc123".to_string(),
    };
    let next = step(state, &cfg, response(200, ref_body("refs/heads/482913", "abc123")));
    match next {
        Step::Failed { error } => assert_eq!(error, ReqError::BadRequest),
        other => panic!("expected Failed, got {:?}", other),
    }
}

#[test]
fn other_lookup_statuses_short_circuit() {
    for status in [200u16, 201, 301, 401, 403, 500, 503] {
        let cfg = config();
        let state = Step::LookupRef {
            head_sha: "abc123".to_string(),
        };
        let next = step(state, &cfg, response(status, BodyData::Unparsed));
        match next {
            Step::Failed { error } => assert_eq!(error, ReqError::BadRequest),
            other => panic!("expected Failed on {}, got {:?}", status, other),
        }
    }
}

#[test]
fn created_ref_keeps_supplied_name() {
    let cfg = config();
    let state = Step::CreateRef {
        head_sha: "abc123".to_string(),
    };
    // even if the server echoed some other name, the run keeps the one it supplied
    let next = step(state, &cfg, response(201, ref_body("refs/heads/other", "abc123")));
    match next {
        Step::BuildTree { head_sha, ref_name } => {
            assert_eq!(head_sha, "abc123");
            assert_eq!(ref_name, "refs/heads/482913");
        }
        other => panic!("expected BuildTree, got {:?}", other),
    }
}

#[test]
fn parent_shas_keeps_none() {
    let shas = parent_shas(&vec![]);
    assert!(shas.is_empty());
}

#[test]
fn parent_shas_keeps_one() {
    let shas = parent_shas(&vec![parent("p1")]);
    assert_eq!(shas, vec!["p1".to_string()]);
}

#[test]
fn parent_shas_keeps_two_in_order() {
    let shas = parent_shas(&vec![parent("p1"), parent("p2")]);
    assert_eq!(shas, vec!["p1".to_string(), "p2".to_string()]);
}

#[test]
fn update_happens_only_after_commit_succeeds() {
    let cfg = config();
    let state = Step::CreateCommit {
        ref_name: "refs/heads/482913".to_string(),
        tree_sha: "tree1".to_string(),
        parent_shas: vec![],
    };
    let next = step(
        state,
        &cfg,
        response(
            201,
            BodyData::CommitData {
                sha: "commit1".to_string(),
                parents: vec![],
            },
        ),
    );
    match next {
        Step::UpdateRef { ref_name, commit_sha } => {
            assert_eq!(ref_name, "refs/heads/482913");
            assert_eq!(commit_sha, "commit1");
        }
        other => panic!("expected UpdateRef, got {:?}", other),
    }
}

#[test]
fn failed_commit_never_updates() {
    let cfg = config();
    let state = Step::CreateCommit {
        ref_name: "refs/heads/482913".to_string(),
        tree_sha: "tree1".to_string(),
        parent_shas: vec![],
    };
    let next = step(state, &cfg, response(500, BodyData::Unparsed));
    match next {
        Step::Failed { error } => assert_eq!(error, ReqError::UnknownConnectionError),
        other => panic!("expected Failed, got {:?}", other),
    }
}

#[test]
fn transport_error_fails_any_state() {
    let cfg = config();
    let next = step(Step::ResolveHead, &cfg, CallOutcome::TransportError);
    match next {
        Step::Failed { error } => assert_eq!(error, ReqError::ConnectionError),
        other => panic!("expected Failed, got {:?}", other),
    }
}

#[test]
fn head_lookup_classifies_statuses() {
    let cases = [
        (404u16, ReqError::NotFound),
        (401, ReqError::AuthError),
        (500, ReqError::BadRequest),
        (403, ReqError::BadRequest),
    ];
    for (status, expected) in cases {
        let cfg = config();
        let next = step(Step::ResolveHead, &cfg, response(status, BodyData::Unparsed));
        match next {
            Step::Failed { error } => assert_eq!(error, expected),
            other => panic!("expected Failed on {}, got {:?}", status, other),
        }
    }
}

#[test]
fn unreadable_body_is_a_connection_error() {
    let cfg = config();
    let next = step(Step::ResolveHead, &cfg, response(200, BodyData::Unparsed));
    match next {
        Step::Failed { error } => assert_eq!(error, ReqError::ConnectionError),
        other => panic!("expected Failed, got {:?}", other),
    }
}

#[test]
fn terminal_states_absorb_outcomes() {
    let cfg = config();
    let done = Step::Done {
        pr_url: "u".to_string(),
    };
    match step(done, &cfg, CallOutcome::TransportError) {
        Step::Done { pr_url } => assert_eq!(pr_url, "u"),
        other => panic!("expected Done, got {:?}", other),
    }
    let failed = Step::Failed {
        error: ReqError::NotFound,
    };
    match step(failed, &cfg, response(200, BodyData::Unparsed)) {
        Step::Failed { error } => assert_eq!(error, ReqError::NotFound),
        other => panic!("expected Failed, got {:?}", other),
    }
}

#[test]
fn full_run_with_zero_parents() {
    let cfg = config();
    let mut state = Step::ResolveHead;

    // resolve the head of main
    let req = request_for(&state, &cfg).unwrap();
    assert_eq!(req.method, HttpMethod::Get);
    assert_eq!(
        req.url,
        "https://api.github.com/repos/o/r/git/refs/heads/main"
    );
    state = step(
        state,
        &cfg,
        response(200, ref_body("refs/heads/main", "abc123")),
    );

    // the generated ref does not exist yet
    let req = request_for(&state, &cfg).unwrap();
    assert_eq!(req.method, HttpMethod::Get);
    assert_eq!(
        req.url,
        "https://api.github.com/repos/o/r/git/refs/heads/482913"
    );
    state = step(state, &cfg, response(404, BodyData::Unparsed));

    // so it is created at the head SHA
    let req = request_for(&state, &cfg).unwrap();
    assert_eq!(req.method, HttpMethod::Post);
    assert_eq!(req.url, "https://api.github.com/repos/o/r/git/refs");
    assert_eq!(
        req.body,
        "{\"ref\":\"refs/heads/482913\",\"sha\":\"abc123\"}"
    );
    state = step(
        state,
        &cfg,
        response(201, ref_body("refs/heads/482913", "abc123")),
    );

    // the tree is layered on the head SHA
    let req = request_for(&state, &cfg).unwrap();
    assert_eq!(req.method, HttpMethod::Post);
    assert_eq!(req.url, "https://api.github.com/repos/o/r/git/trees");
    assert!(req.body.starts_with("{\"base_tree\":\"abc123\""));
    state = step(
        state,
        &cfg,
        response(
            201,
            BodyData::TreeData {
                sha: "tree1".to_string(),
            },
        ),
    );

    // the head commit is read for its parents: none
    let req = request_for(&state, &cfg).unwrap();
    assert_eq!(req.method, HttpMethod::Get);
    assert_eq!(
        req.url,
        "https://api.github.com/repos/o/r/git/commits/abc123"
    );
    state = step(
        state,
        &cfg,
        response(
            200,
            BodyData::CommitData {
                sha: "abc123".to_string(),
                parents: vec![],
            },
        ),
    );

    // the commit is created with the tree from the previous step and no parents
    let req = request_for(&state, &cfg).unwrap();
    assert_eq!(req.method, HttpMethod::Post);
    assert_eq!(req.url, "https://api.github.com/repos/o/r/git/commits");
    assert_eq!(
        req.body,
        "{\"message\":\"Update script\",\"tree\":\"tree1\",\"parents\":[]}"
    );
    state = step(
        state,
        &cfg,
        response(
            201,
            BodyData::CommitData {
                sha: "commit1".to_string(),
                parents: vec![],
            },
        ),
    );

    // the ref is force-updated to the new commit
    let req = request_for(&state, &cfg).unwrap();
    assert_eq!(req.method, HttpMethod::Patch);
    assert_eq!(
        req.url,
        "https://api.github.com/repos/o/r/git/refs/heads/482913"
    );
    assert_eq!(req.body, "{\"sha\":\"commit1\",\"force\":true}");
    state = step(
        state,
        &cfg,
        response(200, ref_body("refs/heads/482913", "commit1")),
    );

    // the pull request goes from the new branch into main
    let req = request_for(&state, &cfg).unwrap();
    assert_eq!(req.method, HttpMethod::Post);
    assert_eq!(req.url, "https://api.github.com/repos/o/r/pulls");
    let v: serde_json::Value = serde_json::from_str(&req.body).unwrap();
    assert_eq!(v["head"], "482913");
    assert_eq!(v["base"], "main");
    state = step(
        state,
        &cfg,
        response(
            201,
            BodyData::PrData {
                url: "https://api.github.com/repos/o/r/pulls/1".to_string(),
            },
        ),
    );

    match state {
        Step::Done { pr_url } => {
            assert_eq!(pr_url, "https://api.github.com/repos/o/r/pulls/1")
        }
        other => panic!("expected Done, got {:?}", other),
    }
}

#[test]
fn full_run_with_two_parents() {
    let cfg = config();
    let state = Step::ResolveParents {
        head_sha: "abc123".to_string(),
        ref_name: "refs/heads/482913".to_string(),
        tree_sha: "tree1".to_string(),
    };
    let state = step(
        state,
        &cfg,
        response(
            200,
            BodyData::CommitData {
                sha: "abc123".to_string(),
                parents: vec![parent("p1"), parent("p2")],
            },
        ),
    );
    let req = request_for(&state, &cfg).unwrap();
    assert_eq!(
        req.body,
        "{\"message\":\"Update script\",\"tree\":\"tree1\",\"parents\":[\"p1\",\"p2\"]}"
    );
}

#[test]
fn finished_runs_plan_no_request() {
    let cfg = config();
    assert!(request_for(
        &Step::Done {
            pr_url: "u".to_string()
        },
        &cfg
    )
    .is_none());
    assert!(request_for(
        &Step::Failed {
            error: ReqError::NotFound
        },
        &cfg
    )
    .is_none());
}
