//! Properties of the traversals that relate several calls or hold of every
//! store.

use vstd::prelude::*;
use crate::context::context_spec;
use crate::error::ErrorV;
use crate::expand::{expand, expand_spec, gate, item_spec, items_spec};
use crate::favorites::{fav_portfolios_spec, fav_projects_spec, favorites_spec};
use crate::refs::{refs_of, RefV};
use crate::store::{reply_for, ReplyV, RequestV, StepV, StoreV};
use crate::tasks::{
    flatten_spec, leaf_ids, num_subtasks, portfolio_tasks_spec, project_tasks_spec, projects_spec,
    subtasks_spec, tasks_spec,
};
use crate::types::ResourceV;

verus! {

/// Expanding a container to depth zero gives one node with no children, and
/// never asks for the container's items, whatever the store holds: the only
/// request it can need is the container's own detail.
pub proof fn lemma_depth_zero(st: StoreV, id: Seq<char>)
    ensures
        match expand(st, id, Some(0)) {
            StepV::Need(q) => q == RequestV::PortfolioDetail(id),
            StepV::Done(Ok(n)) => n.children.len() == 0 && reply_for(
                st,
                RequestV::PortfolioDetail(id),
            ) == Some(ReplyV::One(n.resource)),
            StepV::Done(Err(_)) => true,
        },
{
}

proof fn lemma_expand_need(st: StoreV, id: Seq<char>, max: Option<nat>, depth: nat, fuel: nat)
    ensures
        match expand_spec(st, id, max, depth, fuel) {
            StepV::Need(q) => reply_for(st, q) is None,
            _ => true,
        },
    decreases fuel, 2nat, 0nat,
{
    match reply_for(st, RequestV::PortfolioDetail(id)) {
        Some(ReplyV::One(p)) => if gate(max, depth) {
            match reply_for(st, RequestV::PortfolioItems(id)) {
                Some(ReplyV::Many(rs)) => match refs_of(rs) {
                    Some(refs) => lemma_items_need(st, refs, max, depth, fuel, refs.len()),
                    None => {},
                },
                _ => {},
            }
        },
        _ => {},
    }
}

proof fn lemma_items_need(st: StoreV, refs: Seq<RefV>, max: Option<nat>, depth: nat, fuel: nat, n: nat)
    ensures
        match items_spec(st, refs, max, depth, fuel, n) {
            StepV::Need(q) => reply_for(st, q) is None,
            _ => true,
        },
    decreases fuel, 1nat, n,
{
    if n > 0 {
        lemma_items_need(st, refs, max, depth, fuel, (n - 1) as nat);
        lemma_item_need(st, refs[n - 1], max, depth, fuel);
    }
}

proof fn lemma_item_need(st: StoreV, r: RefV, max: Option<nat>, depth: nat, fuel: nat)
    ensures
        match item_spec(st, r, max, depth, fuel) {
            StepV::Need(q) => reply_for(st, q) is None,
            _ => true,
        },
    decreases fuel, 0nat, 0nat,
{
    if r.resource_type != "project"@ && r.resource_type == "portfolio"@ && fuel > 0 {
        lemma_expand_need(st, r.gid, max, depth + 1, (fuel - 1) as nat);
    }
}

/// Every request the tree expander names is one the store has not recorded.
/// Recording each named response therefore grows the set of distinct
/// requests answered, so on a finite graph the expansion ends with every
/// reachable container and project fetched, and no request made twice.
pub proof fn lemma_expand_progress(st: StoreV, id: Seq<char>, max: Option<nat>)
    ensures
        match expand(st, id, max) {
            StepV::Need(q) => reply_for(st, q) is None,
            _ => true,
        },
{
    lemma_expand_need(st, id, max, 0, st.len());
}

proof fn lemma_flatten_need(st: StoreV, tasks: Seq<ResourceV>, max: Option<nat>, depth: nat, fuel: nat, n: nat)
    ensures
        match flatten_spec(st, tasks, max, depth, fuel, n) {
            StepV::Need(q) => reply_for(st, q) is None,
            _ => true,
        },
    decreases fuel, 1nat, n,
{
    if n > 0 {
        lemma_flatten_need(st, tasks, max, depth, fuel, (n - 1) as nat);
        lemma_subtasks_need(st, tasks[n - 1], max, depth, fuel);
    }
}

proof fn lemma_subtasks_need(st: StoreV, t: ResourceV, max: Option<nat>, depth: nat, fuel: nat)
    ensures
        match subtasks_spec(st, t, max, depth, fuel) {
            StepV::Need(q) => reply_for(st, q) is None,
            _ => true,
        },
    decreases fuel, 0nat, 0nat,
{
    if gate(max, depth) && num_subtasks(t) > 0 {
        match reply_for(st, RequestV::TaskSubtasks(t.gid)) {
            Some(ReplyV::Many(subs)) => if fuel > 0 {
                lemma_flatten_need(st, subs, max, depth + 1, (fuel - 1) as nat, subs.len());
            },
            _ => {},
        }
    }
}

proof fn lemma_project_tasks_need(st: StoreV, pid: Seq<char>, max: Option<nat>, fuel: nat)
    ensures
        match project_tasks_spec(st, pid, max, fuel) {
            StepV::Need(q) => reply_for(st, q) is None,
            _ => true,
        },
{
    match reply_for(st, RequestV::ProjectTasks(pid)) {
        Some(ReplyV::Many(ts)) => lemma_flatten_need(st, ts, max, 0, fuel, ts.len()),
        _ => {},
    }
}

proof fn lemma_projects_need(st: StoreV, pids: Seq<Seq<char>>, max: Option<nat>, fuel: nat, n: nat)
    ensures
        match projects_spec(st, pids, max, fuel, n) {
            StepV::Need(q) => reply_for(st, q) is None,
            _ => true,
        },
    decreases n,
{
    if n > 0 {
        lemma_projects_need(st, pids, max, fuel, (n - 1) as nat);
        lemma_project_tasks_need(st, pids[n - 1], max, fuel);
    }
}

/// Every request the task expander names is one the store has not recorded,
/// whichever path the type probe chose.
pub proof fn lemma_tasks_progress(st: StoreV, id: Seq<char>, smax: Option<nat>, cmax: Option<nat>)
    ensures
        match tasks_spec(st, id, smax, cmax) {
            StepV::Need(q) => reply_for(st, q) is None,
            _ => true,
        },
{
    match reply_for(st, RequestV::ProjectProbe(id)) {
        Some(ReplyV::One(_)) => lemma_project_tasks_need(st, id, smax, st.len()),
        Some(ReplyV::Failed(ErrorV::NotFound(_))) => {
            lemma_expand_need(st, id, cmax, 0, st.len());
            match expand_spec(st, id, cmax, 0, st.len()) {
                StepV::Done(Ok(node)) => lemma_projects_need(st, leaf_ids(node), smax, st.len(), leaf_ids(node).len()),
                _ => {},
            }
        },
        _ => {},
    }
}

proof fn lemma_fav_projects_need(st: StoreV, refs: Seq<RefV>, n: nat)
    ensures
        match fav_projects_spec(st, refs, n) {
            StepV::Need(q) => reply_for(st, q) is None,
            _ => true,
        },
    decreases n,
{
    if n > 0 {
        lemma_fav_projects_need(st, refs, (n - 1) as nat);
    }
}

proof fn lemma_fav_portfolios_need(st: StoreV, refs: Seq<RefV>, max: Option<nat>, fuel: nat, n: nat)
    ensures
        match fav_portfolios_spec(st, refs, max, fuel, n) {
            StepV::Need(q) => reply_for(st, q) is None,
            _ => true,
        },
    decreases n,
{
    if n > 0 {
        lemma_fav_portfolios_need(st, refs, max, fuel, (n - 1) as nat);
        lemma_expand_need(st, refs[n - 1].gid, max, 0, fuel);
    }
}

/// Every request the batch resolver names is one the store has not recorded.
pub proof fn lemma_favorites_progress(st: StoreV, ws: Seq<char>, max: Option<nat>)
    ensures
        match favorites_spec(st, ws, max) {
            StepV::Need(q) => reply_for(st, q) is None,
            _ => true,
        },
{
    match reply_for(st, RequestV::FavoriteProjects(ws)) {
        Some(ReplyV::Many(prs)) => match refs_of(prs) {
            Some(prefs) => {
                lemma_fav_projects_need(st, prefs, prefs.len());
                match reply_for(st, RequestV::FavoritePortfolios(ws)) {
                    Some(ReplyV::Many(pos)) => match refs_of(pos) {
                        Some(orefs) => lemma_fav_portfolios_need(st, orefs, max, st.len(), orefs.len()),
                        None => {},
                    },
                    _ => {},
                }
            },
            None => {},
        },
        _ => {},
    }
}

/// Every request the task-context walk names is one the store has not
/// recorded.
pub proof fn lemma_context_progress(st: StoreV, gid: Seq<char>, subtasks: bool, dependencies: bool, comments: bool)
    ensures
        match context_spec(st, gid, subtasks, dependencies, comments) {
            StepV::Need(q) => reply_for(st, q) is None,
            _ => true,
        },
{
}

/// The task expander's type probe has exactly three outcomes once it is
/// answered: a project follows the project path, a not-found follows the
/// container path with the same identifier, and any other failure is the
/// result.
pub proof fn lemma_type_probe_fallback(st: StoreV, id: Seq<char>, smax: Option<nat>, cmax: Option<nat>)
    ensures
        reply_for(st, RequestV::ProjectProbe(id)) is None ==> tasks_spec(st, id, smax, cmax)
            == StepV::<Result<Seq<crate::types::ResourceV>, ErrorV>>::Need(RequestV::ProjectProbe(id)),
        reply_for(st, RequestV::ProjectProbe(id)) matches Some(ReplyV::One(_)) ==> tasks_spec(
            st,
            id,
            smax,
            cmax,
        ) == project_tasks_spec(st, id, smax, st.len()),
        reply_for(st, RequestV::ProjectProbe(id)) matches Some(ReplyV::Failed(ErrorV::NotFound(_)))
            ==> tasks_spec(st, id, smax, cmax) == portfolio_tasks_spec(st, id, smax, cmax, st.len()),
        forall|e: ErrorV|
            !(e matches ErrorV::NotFound(_)) && reply_for(st, RequestV::ProjectProbe(id)) == Some(
                ReplyV::Failed(e),
            ) ==> tasks_spec(st, id, smax, cmax) == StepV::<
                Result<Seq<crate::types::ResourceV>, ErrorV>,
            >::Done(Err(e)),
{
}

/// Whether the detail of every one of the first `n` references is recorded.
pub open spec fn all_recorded(st: StoreV, refs: Seq<RefV>, n: nat) -> bool {
    forall|i: int| 0 <= i < n ==> (#[trigger] reply_for(st, RequestV::ProjectDetail(refs[i].gid))) is Some
}

/// Once the detail of every reference is recorded, the batch resolver
/// finishes, and every reference lands in exactly one of the two lists: a
/// failure of one never ends the batch or drops another.
pub proof fn lemma_partial_failure_isolation(st: StoreV, refs: Seq<RefV>, n: nat)
    requires
        all_recorded(st, refs, n),
    ensures
        fav_projects_spec(st, refs, n) matches StepV::Done((ps, es)) && ps.len() + es.len() == n,
        forall|k: nat|
            k < n && (reply_for(st, RequestV::ProjectDetail(refs[k as int].gid)) matches Some(
                ReplyV::Failed(_),
            )) ==> (#[trigger] fav_projects_spec(st, refs, k + 1) matches StepV::Done((_, es)) && es.last().0
                == refs[k as int]),
    decreases n,
{
    if n > 0 {
        assert(all_recorded(st, refs, (n - 1) as nat));
        lemma_partial_failure_isolation(st, refs, (n - 1) as nat);
        assert(reply_for(st, RequestV::ProjectDetail(refs[n - 1].gid)) is Some);
        assert forall|k: nat|
            k < n && (reply_for(st, RequestV::ProjectDetail(refs[k as int].gid)) matches Some(
                ReplyV::Failed(_),
            )) implies (#[trigger] fav_projects_spec(st, refs, k + 1) matches StepV::Done((_, es)) && es.last().0
            == refs[k as int]) by {
            if k < n - 1 {
            } else {
                assert(k == n - 1);
            }
        }
    }
}

} // verus!
