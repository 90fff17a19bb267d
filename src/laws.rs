use vstd::prelude::*;
use crate::resolver::{
    cached_script, finishes_with_script, local_script, transition, Action, Event, Fallback,
    Resolver, Stage, Step,
};
use crate::error::ResolveError;
use crate::release::PACKAGE_NAME;

verus! {

/// `rs`, `evs` and `outs` record a resolution call: event `evs[i]` answers
/// what resolver `rs[i]` waits for, and moves it to `rs[i + 1]` with step `outs[i]`.
pub open spec fn is_run(rs: Seq<Resolver>, evs: Seq<Event>, outs: Seq<Step>) -> bool {
    &&& rs.len() == evs.len() + 1
    &&& outs.len() == evs.len()
    &&& forall|i: int|
        #![trigger outs[i]]
        0 <= i < evs.len() ==> rs[i].stage.awaits(evs[i]) && transition(
            rs[i],
            evs[i],
            rs[i + 1],
            outs[i],
        )
}

proof fn lemma_run_step(rs: Seq<Resolver>, evs: Seq<Event>, outs: Seq<Step>, i: int)
    requires
        is_run(rs, evs, outs),
        0 <= i < evs.len(),
    ensures
        rs[i].stage.awaits(evs[i]),
        transition(rs[i], evs[i], rs[i + 1], outs[i]),
{
}

proof fn lemma_step_facts(pre: Resolver, ev: Event, post: Resolver, out: Step)
    requires
        pre.stage.awaits(ev),
        transition(pre, ev, post, out),
    ensures
        pre.stage.rank() < post.stage.rank(),
        post.fallback == pre.fallback,
        post.cwd@ == pre.cwd@,
        out.action is Finish <==> post.stage is Finished,
        out.action is QueryRelease ==> post.stage is QueryingRelease,
        out.action is Download ==> pre.stage is CheckingCache && post.stage is Downloading,
{
}

proof fn lemma_run_advances(rs: Seq<Resolver>, evs: Seq<Event>, outs: Seq<Step>, i: int, j: int)
    requires
        is_run(rs, evs, outs),
        0 <= i < j <= evs.len(),
    ensures
        rs[i].stage.rank() < rs[j].stage.rank(),
        rs[j].fallback == rs[i].fallback,
        rs[j].cwd@ == rs[i].cwd@,
    decreases j - i,
{
    lemma_run_step(rs, evs, outs, j - 1);
    lemma_step_facts(rs[j - 1], evs[j - 1], rs[j], outs[j - 1]);
    if i < j - 1 {
        lemma_run_advances(rs, evs, outs, i, j - 1);
    }
}

/// A call passes through each stage at most once: every step moves it to a
/// later stage.
pub proof fn law_stages_advance(rs: Seq<Resolver>, evs: Seq<Event>, outs: Seq<Step>)
    requires
        is_run(rs, evs, outs),
    ensures
        forall|i: int, j: int|
            0 <= i < j < rs.len() ==> #[trigger] rs[i].stage.rank() < #[trigger] rs[j].stage.rank(),
{
    assert forall|i: int, j: int| 0 <= i < j < rs.len() implies #[trigger] rs[i].stage.rank()
        < #[trigger] rs[j].stage.rank() by {
        lemma_run_advances(rs, evs, outs, i, j);
    }
}

/// A call ends with the first step that finishes it: nothing follows.
pub proof fn law_finish_is_last(rs: Seq<Resolver>, evs: Seq<Event>, outs: Seq<Step>, i: int)
    requires
        is_run(rs, evs, outs),
        0 <= i < evs.len(),
        outs[i].action is Finish,
    ensures
        i == evs.len() - 1,
{
    lemma_step_facts(rs[i], evs[i], rs[i + 1], outs[i]);
    if i + 1 < evs.len() {
        lemma_run_step(rs, evs, outs, i + 1);
    }
}

/// A call issues at most one release query.
pub proof fn law_at_most_one_release_query(rs: Seq<Resolver>, evs: Seq<Event>, outs: Seq<Step>)
    requires
        is_run(rs, evs, outs),
    ensures
        forall|i: int, j: int|
            0 <= i < outs.len() && 0 <= j < outs.len() && #[trigger] outs[i].action is QueryRelease
                && #[trigger] outs[j].action is QueryRelease ==> i == j,
{
    assert forall|i: int, j: int|
        0 <= i < outs.len() && 0 <= j < outs.len() && #[trigger] outs[i].action is QueryRelease
            && #[trigger] outs[j].action is QueryRelease implies i == j by {
        lemma_step_facts(rs[i], evs[i], rs[i + 1], outs[i]);
        lemma_step_facts(rs[j], evs[j], rs[j + 1], outs[j]);
        if i < j {
            lemma_run_advances(rs, evs, outs, i + 1, j + 1);
        } else if j < i {
            lemma_run_advances(rs, evs, outs, j + 1, i + 1);
        }
    }
}

/// When the local script is present, the call launches it with the protocol
/// flag right after the probe, without querying or downloading anything.
pub proof fn law_local_script_is_launched(
    rs: Seq<Resolver>,
    evs: Seq<Event>,
    outs: Seq<Step>,
    runtime: String,
)
    requires
        is_run(rs, evs, outs),
        rs[0].stage is LocatingRuntime,
        evs.len() >= 2,
        evs[0] == (Event::RuntimeLocated { outcome: Ok(runtime) }),
        evs[1] == (Event::Probed { present: true }),
    ensures
        evs.len() == 2,
        finishes_with_script(outs[1], runtime@, local_script(rs[0].cwd@)),
        forall|i: int|
            0 <= i < outs.len() ==> !(#[trigger] outs[i].action is QueryRelease)
                && !(outs[i].action is Download),
{
    lemma_run_step(rs, evs, outs, 0);
    lemma_run_step(rs, evs, outs, 1);
    law_finish_is_last(rs, evs, outs, 1);
}

/// Under the download policy, a missing local script leads to exactly one
/// release query; when it fails the call ends with that error and downloads
/// nothing.
pub proof fn law_missing_script_queries_release_once(
    rs: Seq<Resolver>,
    evs: Seq<Event>,
    outs: Seq<Step>,
    runtime: String,
    failure: String,
)
    requires
        is_run(rs, evs, outs),
        rs[0].stage is LocatingRuntime,
        rs[0].fallback == Fallback::Download,
        evs.len() >= 2,
        evs[0] == (Event::RuntimeLocated { outcome: Ok(runtime) }),
        evs[1] == (Event::Probed { present: false }),
    ensures
        outs[1].action is QueryRelease,
        forall|j: int| 0 <= j < outs.len() && j != 1 ==> !(#[trigger] outs[j].action is QueryRelease),
        evs.len() >= 3 && evs[2] == (Event::ReleaseFetched { outcome: Err(failure) }) ==> {
            &&& evs.len() == 3
            &&& outs[2].action matches Action::Finish { outcome: Err(err) }
            &&& err matches ResolveError::ReleaseQueryFailed { cause } && cause@ == failure@
            &&& forall|j: int| 0 <= j < outs.len() ==> !(#[trigger] outs[j].action is Download)
        },
{
    lemma_run_step(rs, evs, outs, 0);
    lemma_run_step(rs, evs, outs, 1);
    law_at_most_one_release_query(rs, evs, outs);
    if evs.len() >= 3 && evs[2] == (Event::ReleaseFetched { outcome: Err(failure) }) {
        lemma_run_step(rs, evs, outs, 2);
        law_finish_is_last(rs, evs, outs, 2);
    }
}

/// Under the search-path policy, a missing local script leads to one lookup
/// of the package's executable: a found path is run directly with no
/// arguments, and a failed lookup ends the call with an error naming the
/// executable. Nothing is queried or downloaded.
pub proof fn law_search_path_fallback(
    rs: Seq<Resolver>,
    evs: Seq<Event>,
    outs: Seq<Step>,
    runtime: String,
    found: Option<String>,
)
    requires
        is_run(rs, evs, outs),
        rs[0].stage is LocatingRuntime,
        rs[0].fallback == Fallback::SearchPath,
        evs.len() >= 3,
        evs[0] == (Event::RuntimeLocated { outcome: Ok(runtime) }),
        evs[1] == (Event::Probed { present: false }),
        evs[2] == (Event::WhichAnswered { path: found }),
    ensures
        evs.len() == 3,
        outs[1].action matches Action::Which { command } && command@ == PACKAGE_NAME@,
        found matches Some(p) ==> {
            &&& outs[2].action matches Action::Finish { outcome: Ok(c) }
            &&& c.runs(p@, Seq::empty())
        },
        found is None ==> {
            &&& outs[2].action matches Action::Finish { outcome: Err(err) }
            &&& err matches ResolveError::CommandNotOnPath { command } && command@ == PACKAGE_NAME@
        },
        forall|i: int|
            0 <= i < outs.len() ==> !(#[trigger] outs[i].action is QueryRelease)
                && !(outs[i].action is Download),
{
    lemma_run_step(rs, evs, outs, 0);
    lemma_run_step(rs, evs, outs, 1);
    lemma_run_step(rs, evs, outs, 2);
    law_finish_is_last(rs, evs, outs, 2);
}

/// When the cache directory already exists, the call ends right there with
/// the script inside it, and no download is made at any point of the call.
pub proof fn law_cache_hit_downloads_nothing(
    rs: Seq<Resolver>,
    evs: Seq<Event>,
    outs: Seq<Step>,
    i: int,
)
    requires
        is_run(rs, evs, outs),
        0 <= i < evs.len(),
        rs[i].stage is CheckingCache,
        evs[i] == (Event::Probed { present: true }),
    ensures
        i == evs.len() - 1,
        rs[i].stage matches Stage::CheckingCache { runtime, dir, .. } && finishes_with_script(
            outs[i],
            runtime@,
            cached_script(rs[i].cwd@, dir@),
        ),
        forall|j: int| 0 <= j < outs.len() ==> !(#[trigger] outs[j].action is Download),
{
    lemma_run_step(rs, evs, outs, i);
    law_finish_is_last(rs, evs, outs, i);
    assert forall|j: int| 0 <= j < outs.len() implies !(#[trigger] outs[j].action is Download) by {
        if outs[j].action is Download {
            lemma_step_facts(rs[j], evs[j], rs[j + 1], outs[j]);
            if j < i {
                lemma_run_advances(rs, evs, outs, j, i);
            }
        }
    }
}

} // verus!
