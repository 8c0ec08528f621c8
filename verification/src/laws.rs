//! What the machine guarantees across whole runs: creation happens only on
//! a missing ref and at most once, the ref keeps the supplied name, the
//! parent list survives unchanged, and a ref is force-updated only after
//! its commit exists.

use vstd::prelude::*;
use crate::error::ReqError;
use crate::request::spec_generated_ref;
use crate::schema::ParentView;
use crate::request::update_ref_body;
use crate::status::spec_is_success;
use crate::workflow::BodyDataView;
use crate::workflow::ConfigView;
use crate::workflow::OutcomeView;
use crate::workflow::StepView;
use crate::workflow::is_terminal;
use crate::workflow::next_step;

verus! {

/// Whether `needle` occurs contiguously inside `haystack`.
pub open spec fn contains_substr(haystack: Seq<char>, needle: Seq<char>) -> bool {
    exists|i: int|
        0 <= i && i + needle.len() <= haystack.len() && #[trigger] haystack.subrange(
            i,
            i + needle.len(),
        ) == needle
}

/// A missing ref (status 404) on the lookup is the one road to creation;
/// any other status ends the run at once as a bad request, so no creation
/// is attempted.
pub proof fn lemma_lookup_routing(
    head_sha: Seq<char>,
    c: ConfigView,
    status: u16,
    body: BodyDataView,
)
    ensures
        status == 404 ==> next_step(
            StepView::LookupRef { head_sha },
            c,
            OutcomeView::Response { status, body },
        ) == (StepView::CreateRef { head_sha }),
        status != 404 ==> next_step(
            StepView::LookupRef { head_sha },
            c,
            OutcomeView::Response { status, body },
        ) == (StepView::Failed { error: ReqError::BadRequest }),
{
}

/// The creation state is reached only from the lookup, and only on a 404.
pub proof fn lemma_creation_only_from_missing_lookup(s: StepView, c: ConfigView, o: OutcomeView)
    requires
        next_step(s, c, o) is CreateRef,
    ensures
        s is LookupRef,
        o matches OutcomeView::Response { status, .. } && status == 404,
{
}

/// Once creation succeeds, the ref the run carries forward is exactly the
/// generated ref it supplied: the created branch keeps its name.
pub proof fn lemma_created_ref_keeps_name(
    head_sha: Seq<char>,
    c: ConfigView,
    status: u16,
    body: BodyDataView,
)
    requires
        spec_is_success(status),
        body is RefData,
    ensures
        next_step(StepView::CreateRef { head_sha }, c, OutcomeView::Response { status, body })
            == (StepView::BuildTree { head_sha, ref_name: spec_generated_ref(c.branch) }),
{
}

/// The parent SHAs handed to commit creation are exactly those the commit
/// endpoint reported, as many and in the same order.
pub proof fn lemma_parents_preserved(
    head_sha: Seq<char>,
    ref_name: Seq<char>,
    tree_sha: Seq<char>,
    c: ConfigView,
    status: u16,
    commit_sha: Seq<char>,
    parents: Seq<ParentView>,
)
    requires
        spec_is_success(status),
    ensures
        ({
            let next = next_step(
                StepView::ResolveParents { head_sha, ref_name, tree_sha },
                c,
                OutcomeView::Response {
                    status,
                    body: BodyDataView::CommitData { sha: commit_sha, parents },
                },
            );
            &&& next matches StepView::CreateCommit {
                ref_name: r2,
                tree_sha: t2,
                parent_shas,
            }
            &&& r2 == ref_name
            &&& t2 == tree_sha
            &&& parent_shas.len() == parents.len()
            &&& (forall|j: int|
                0 <= j < parents.len() ==> parent_shas[j] == parents[j].sha)
        }),
{
}

/// The force-update state is reached only from commit creation, only on a
/// successful status with a readable commit body, and it targets exactly
/// the commit that was just created.
pub proof fn lemma_update_only_after_commit(s: StepView, c: ConfigView, o: OutcomeView)
    requires
        next_step(s, c, o) is UpdateRef,
    ensures
        s is CreateCommit,
        o matches OutcomeView::Response { status, body } && spec_is_success(status)
            && body is CommitData && next_step(s, c, o)->UpdateRef_commit_sha
            == body->CommitData_sha,
        next_step(s, c, o)->UpdateRef_ref_name == s->CreateCommit_ref_name,
{
}

/// Every force-update payload sets the `force` flag: the text
/// `"force":true` stands in the body, whatever the SHA.
pub proof fn lemma_update_ref_body_forces(sha: Seq<char>)
    ensures
        contains_substr(update_ref_body(sha), "\"force\":true"@),
{
    let needle = "\"force\":true"@;
    let body = update_ref_body(sha);
    let w: int = ("{\"sha\":\""@.len() + sha.len() + "\","@.len()) as int;
    assert(body.subrange(w, w + needle.len()) =~= needle);
}

/// How far along a run a state stands; failure counts as past everything.
pub open spec fn phase(s: StepView) -> int {
    match s {
        StepView::ResolveHead => 0,
        StepView::LookupRef { .. } => 1,
        StepView::CreateRef { .. } => 2,
        StepView::BuildTree { .. } => 3,
        StepView::ResolveParents { .. } => 4,
        StepView::CreateCommit { .. } => 5,
        StepView::UpdateRef { .. } => 6,
        StepView::OpenPullRequest => 7,
        StepView::Done { .. } => 8,
        StepView::Failed { .. } => 9,
    }
}

/// A run only moves forward: a terminal state absorbs every outcome, and
/// every other transition strictly advances the phase, so no call is ever
/// repeated.
pub proof fn lemma_phase_advances(s: StepView, c: ConfigView, o: OutcomeView)
    ensures
        is_terminal(s) ==> next_step(s, c, o) == s,
        !is_terminal(s) ==> phase(next_step(s, c, o)) > phase(s),
{
}

/// The states a run visits, from the start, after each of the outcomes in
/// turn.
pub open spec fn run_states(c: ConfigView, outcomes: Seq<OutcomeView>) -> Seq<StepView>
    decreases outcomes.len(),
{
    if outcomes.len() == 0 {
        seq![StepView::ResolveHead]
    } else {
        let prev = run_states(c, outcomes.drop_last());
        prev.push(next_step(prev.last(), c, outcomes.last()))
    }
}

/// A run's trace holds one more state than it saw outcomes, and begins at
/// the start state.
pub proof fn lemma_run_states_shape(c: ConfigView, outcomes: Seq<OutcomeView>)
    ensures
        run_states(c, outcomes).len() == outcomes.len() + 1,
        run_states(c, outcomes)[0] == StepView::ResolveHead,
    decreases outcomes.len(),
{
    if outcomes.len() > 0 {
        lemma_run_states_shape(c, outcomes.drop_last());
    }
}

/// Each consecutive pair of a run's trace is one machine transition on the
/// outcome between them.
pub proof fn lemma_run_states_adjacent(c: ConfigView, outcomes: Seq<OutcomeView>, i: int)
    requires
        0 <= i < outcomes.len(),
    ensures
        run_states(c, outcomes).len() == outcomes.len() + 1,
        run_states(c, outcomes)[i + 1] == next_step(run_states(c, outcomes)[i], c, outcomes[i]),
    decreases outcomes.len(),
{
    lemma_run_states_shape(c, outcomes);
    let prev = run_states(c, outcomes.drop_last());
    lemma_run_states_shape(c, outcomes.drop_last());
    if i == outcomes.len() - 1 {
        assert(prev.last() == prev[i]);
    } else {
        lemma_run_states_adjacent(c, outcomes.drop_last(), i);
        assert(outcomes.drop_last()[i] == outcomes[i]);
    }
}

/// How many of a trace's states stand at the creation call.
pub open spec fn creation_visits(states: Seq<StepView>) -> nat
    decreases states.len(),
{
    if states.len() == 0 {
        0
    } else {
        creation_visits(states.drop_last()) + if states.last() is CreateRef {
            1nat
        } else {
            0nat
        }
    }
}

/// However long a run and whatever the responses, the creation call is
/// reached at most once.
pub proof fn lemma_at_most_one_creation(c: ConfigView, outcomes: Seq<OutcomeView>)
    ensures
        creation_visits(run_states(c, outcomes)) <= 1,
        creation_visits(run_states(c, outcomes)) == 1 ==> phase(run_states(c, outcomes).last())
            >= 2,
    decreases outcomes.len(),
{
    lemma_run_states_shape(c, outcomes);
    if outcomes.len() == 0 {
        let states = run_states(c, outcomes);
        assert(states.drop_last() =~= Seq::<StepView>::empty());
        assert(creation_visits(Seq::<StepView>::empty()) == 0);
        assert(creation_visits(states) == 0);
    } else {
        let prev_outcomes = outcomes.drop_last();
        lemma_at_most_one_creation(c, prev_outcomes);
        let prev = run_states(c, prev_outcomes);
        lemma_run_states_shape(c, prev_outcomes);
        let new = next_step(prev.last(), c, outcomes.last());
        let states = run_states(c, outcomes);
        assert(states.drop_last() =~= prev);
        assert(states.last() == new);
        if new is CreateRef {
            lemma_creation_only_from_missing_lookup(prev.last(), c, outcomes.last());
            assert(phase(prev.last()) == 1);
            assert(creation_visits(prev) == 0);
        } else {
            lemma_phase_advances(prev.last(), c, outcomes.last());
        }
    }
}

/// In any run, a force-update is entered only right after a successful
/// commit creation: the update is never issued unless the commit call
/// succeeded.
pub proof fn lemma_update_follows_commit_in_run(
    c: ConfigView,
    outcomes: Seq<OutcomeView>,
    i: int,
)
    requires
        0 <= i < outcomes.len(),
        run_states(c, outcomes)[i + 1] is UpdateRef,
    ensures
        run_states(c, outcomes)[i] is CreateCommit,
        outcomes[i] matches OutcomeView::Response { status, body } && spec_is_success(status)
            && body is CommitData,
{
    lemma_run_states_adjacent(c, outcomes, i);
    lemma_update_only_after_commit(run_states(c, outcomes)[i], c, outcomes[i]);
}

} // verus!
