//! The depth-bounded list expander: the tasks of a project, each followed by
//! its subtasks flattened depth-first; or, for a container, the tasks of every
//! project its tree holds.

use vstd::prelude::*;
use crate::error::{Error, ErrorV};
use crate::expand::{expand_spec, fetch_portfolio_with_depth, gate, opt_nat};
use crate::json::{find, lookup, parse_u64, u64_of};
use crate::store::{
    reply_for, resources_view, shape_error, shape_failure, Reply, ReplyV, Request, RequestV, Step,
    StepV, Store, StoreV,
};
use crate::types::{
    child_view, children_view, node_view, ChildV, NodeV, PortfolioItemExpanded, PortfolioWithItems,
    Resource, ResourceV,
};

verus! {

/// The subtask count a task reports; absent or not an unsigned integer is 0.
pub open spec fn num_subtasks(t: ResourceV) -> u64 {
    match lookup(t.fields, "num_subtasks"@) {
        None => 0,
        Some(v) => match u64_of(v) {
            None => 0,
            Some(n) => n,
        },
    }
}

/// The flattened list of the first `n` tasks at `depth`: each task followed
/// by its expanded subtasks.
pub open spec fn flatten_spec(
    st: StoreV,
    tasks: Seq<ResourceV>,
    max: Option<nat>,
    depth: nat,
    fuel: nat,
    n: nat,
) -> StepV<Result<Seq<ResourceV>, ErrorV>>
    decreases fuel, 1nat, n,
{
    if n == 0 {
        StepV::Done(Ok(Seq::empty()))
    } else {
        match flatten_spec(st, tasks, max, depth, fuel, (n - 1) as nat) {
            StepV::Done(Ok(acc)) => match subtasks_spec(st, tasks[n - 1], max, depth, fuel) {
                StepV::Need(q) => StepV::Need(q),
                StepV::Done(Err(e)) => StepV::Done(Err(e)),
                StepV::Done(Ok(sub)) => StepV::Done(Ok(acc.push(tasks[n - 1]) + sub)),
            },
            other => other,
        }
    }
}

/// The subtasks of task `t` at `depth`, expanded one level down while the
/// depth gate is open and `t` has a nonzero subtask count.
pub open spec fn subtasks_spec(
    st: StoreV,
    t: ResourceV,
    max: Option<nat>,
    depth: nat,
    fuel: nat,
) -> StepV<Result<Seq<ResourceV>, ErrorV>>
    decreases fuel, 0nat, 0nat,
{
    if gate(max, depth) && num_subtasks(t) > 0 {
        match reply_for(st, RequestV::TaskSubtasks(t.gid)) {
            None => StepV::Need(RequestV::TaskSubtasks(t.gid)),
            Some(ReplyV::Failed(e)) => StepV::Done(Err(e)),
            Some(ReplyV::One(_)) => StepV::Done(Err(shape_error())),
            Some(ReplyV::Many(subs)) => if fuel == 0 {
                StepV::Done(Err(ErrorV::Cyclic(t.gid)))
            } else {
                flatten_spec(st, subs, max, depth + 1, (fuel - 1) as nat, subs.len())
            },
        }
    } else {
        StepV::Done(Ok(Seq::empty()))
    }
}

/// The flattened tasks of project `pid`.
pub open spec fn project_tasks_spec(
    st: StoreV,
    pid: Seq<char>,
    max: Option<nat>,
    fuel: nat,
) -> StepV<Result<Seq<ResourceV>, ErrorV>> {
    match reply_for(st, RequestV::ProjectTasks(pid)) {
        None => StepV::Need(RequestV::ProjectTasks(pid)),
        Some(ReplyV::Failed(e)) => StepV::Done(Err(e)),
        Some(ReplyV::One(_)) => StepV::Done(Err(shape_error())),
        Some(ReplyV::Many(ts)) => flatten_spec(st, ts, max, 0, fuel, ts.len()),
    }
}

/// The project identifiers of an expanded container, depth-first.
pub open spec fn leaf_ids(n: NodeV) -> Seq<Seq<char>>
    decreases n,
{
    children_ids(n.children)
}

pub open spec fn children_ids(s: Seq<ChildV>) -> Seq<Seq<char>>
    decreases s,
{
    if s.len() == 0 {
        Seq::empty()
    } else {
        children_ids(s.subrange(0, s.len() - 1)) + child_ids(s[s.len() - 1])
    }
}

pub open spec fn child_ids(c: ChildV) -> Seq<Seq<char>>
    decreases c,
{
    match c {
        ChildV::Leaf(r) => seq![r.gid],
        ChildV::Nested(n) => leaf_ids(n),
    }
}

/// The tasks of the first `n` projects, one project after another; a project
/// that is not found is skipped.
pub open spec fn projects_spec(
    st: StoreV,
    pids: Seq<Seq<char>>,
    max: Option<nat>,
    fuel: nat,
    n: nat,
) -> StepV<Result<Seq<ResourceV>, ErrorV>>
    decreases n,
{
    if n == 0 {
        StepV::Done(Ok(Seq::empty()))
    } else {
        match projects_spec(st, pids, max, fuel, (n - 1) as nat) {
            StepV::Done(Ok(acc)) => match project_tasks_spec(st, pids[n - 1], max, fuel) {
                StepV::Need(q) => StepV::Need(q),
                StepV::Done(Err(ErrorV::NotFound(_))) => StepV::Done(Ok(acc)),
                StepV::Done(Err(e)) => StepV::Done(Err(e)),
                StepV::Done(Ok(ts)) => StepV::Done(Ok(acc + ts)),
            },
            other => other,
        }
    }
}

/// The tasks of container `id`: its tree expanded to `cmax` levels, then the
/// tasks of each project in it.
pub open spec fn portfolio_tasks_spec(
    st: StoreV,
    id: Seq<char>,
    smax: Option<nat>,
    cmax: Option<nat>,
    fuel: nat,
) -> StepV<Result<Seq<ResourceV>, ErrorV>> {
    match expand_spec(st, id, cmax, 0, fuel) {
        StepV::Need(q) => StepV::Need(q),
        StepV::Done(Err(e)) => StepV::Done(Err(e)),
        StepV::Done(Ok(node)) => {
            let pids = leaf_ids(node);
            projects_spec(st, pids, smax, fuel, pids.len())
        },
    }
}

/// The tasks of `id`, whichever kind it is: a probe as a project decides; a
/// project follows the project path, a not-found the container path.
pub open spec fn tasks_spec(
    st: StoreV,
    id: Seq<char>,
    smax: Option<nat>,
    cmax: Option<nat>,
) -> StepV<Result<Seq<ResourceV>, ErrorV>> {
    match reply_for(st, RequestV::ProjectProbe(id)) {
        None => StepV::Need(RequestV::ProjectProbe(id)),
        Some(ReplyV::One(_)) => project_tasks_spec(st, id, smax, st.len()),
        Some(ReplyV::Failed(ErrorV::NotFound(_))) => portfolio_tasks_spec(st, id, smax, cmax, st.len()),
        Some(ReplyV::Failed(e)) => StepV::Done(Err(e)),
        Some(ReplyV::Many(_)) => StepV::Done(Err(shape_error())),
    }
}

pub open spec fn list_step_view(s: Step<Result<Vec<Resource>, Error>>) -> StepV<Result<Seq<ResourceV>, ErrorV>> {
    match s {
        Step::Need(q) => StepV::Need(q@),
        Step::Done(Ok(v)) => StepV::Done(Ok(resources_view(v@))),
        Step::Done(Err(e)) => StepV::Done(Err(e@)),
    }
}

proof fn lemma_flatten_stopped(
    st: StoreV,
    tasks: Seq<ResourceV>,
    max: Option<nat>,
    depth: nat,
    fuel: nat,
    n: nat,
    m: nat,
)
    requires
        n <= m,
        !(flatten_spec(st, tasks, max, depth, fuel, n) matches StepV::Done(Ok(_))),
    ensures
        flatten_spec(st, tasks, max, depth, fuel, m) == flatten_spec(st, tasks, max, depth, fuel, n),
    decreases m,
{
    if m > n {
        lemma_flatten_stopped(st, tasks, max, depth, fuel, n, (m - 1) as nat);
    }
}

proof fn lemma_projects_stopped(st: StoreV, pids: Seq<Seq<char>>, max: Option<nat>, fuel: nat, n: nat, m: nat)
    requires
        n <= m,
        !(projects_spec(st, pids, max, fuel, n) matches StepV::Done(Ok(_))),
    ensures
        projects_spec(st, pids, max, fuel, m) == projects_spec(st, pids, max, fuel, n),
    decreases m,
{
    if m > n {
        lemma_projects_stopped(st, pids, max, fuel, n, (m - 1) as nat);
    }
}

/// Reads a task's subtask count, as `num_subtasks` says.
pub fn subtask_count(t: &Resource) -> (r: u64)
    ensures
        r == num_subtasks(t@),
{
    match find(&t.fields, "num_subtasks") {
        None => 0,
        Some(v) => match parse_u64(v.as_str()) {
            None => 0,
            Some(n) => n,
        },
    }
}

/// Whether a story is a comment a user wrote.
pub open spec fn is_comment_spec(story: ResourceV) -> bool {
    match lookup(story.fields, "resource_subtype"@) {
        Some(t) => crate::json::opt_string_of(t) == Some(Some("comment_added"@)),
        None => false,
    }
}

/// Tells whether a story is a comment, as `is_comment_spec` says.
pub fn is_comment(story: &Resource) -> (r: bool)
    ensures
        r == is_comment_spec(story@),
{
    match find(&story.fields, "resource_subtype") {
        Some(t) => match crate::json::parse_opt_string(t.as_str()) {
            Some(Some(s)) => crate::json::str_eq(s.as_str(), "comment_added"),
            _ => false,
        },
        None => false,
    }
}

/// The comments among `stories`, in order.
pub fn comments_of(stories: Vec<Resource>) -> (r: Vec<Resource>)
    ensures
        resources_view(r@) == resources_view(stories@).filter(|s: ResourceV| is_comment_spec(s)),
{
    let ghost sv = resources_view(stories@);
    let mut out: Vec<Resource> = Vec::new();
    let mut i: usize = 0;
    proof {
        reveal(Seq::filter);
    }
    assert(resources_view(out@) =~= sv.take(0).filter(|s: ResourceV| is_comment_spec(s)));
    while i < stories.len()
        invariant
            i <= stories.len(),
            sv == resources_view(stories@),
            resources_view(out@) == sv.take(i as int).filter(|s: ResourceV| is_comment_spec(s)),
        decreases stories.len() - i,
    {
        let ghost before = resources_view(out@);
        proof {
            reveal(Seq::filter);
        }
        assert(sv.take(i + 1).drop_last() =~= sv.take(i as int));
        if is_comment(&stories[i]) {
            out.push(stories[i].copy());
            assert(resources_view(out@) =~= before.push(sv[i as int]));
        }
        i = i + 1;
    }
    assert(sv.take(stories.len() as int) =~= sv);
    out
}

/// Appends copies of the resources of `src` to `dst`.
pub fn extend_copies(dst: &mut Vec<Resource>, src: &Vec<Resource>)
    ensures
        resources_view(final(dst)@) == resources_view(old(dst)@) + resources_view(src@),
{
    let ghost d0 = resources_view(dst@);
    let mut i: usize = 0;
    while i < src.len()
        invariant
            i <= src.len(),
            resources_view(dst@) == d0 + resources_view(src@.take(i as int)),
        decreases src.len() - i,
    {
        let ghost before = dst@;
        dst.push(src[i].copy());
        assert(resources_view(dst@) =~= resources_view(before).push(src@[i as int]@));
        assert(resources_view(src@.take(i + 1)) =~= resources_view(src@.take(i as int)).push(src@[i as int]@));
        i = i + 1;
    }
    assert(src@.take(src.len() as int) =~= src@);
}

fn expand_task(
    store: &Store,
    t: &Resource,
    max: Option<usize>,
    depth: usize,
    fuel: usize,
) -> (out: Step<Result<Vec<Resource>, Error>>)
    requires
        depth + fuel <= usize::MAX,
    ensures
        list_step_view(out) == subtasks_spec(store@, t@, opt_nat(max), depth as nat, fuel as nat),
    decreases fuel, 0nat, 0nat,
{
    let open = match max {
        None => true,
        Some(m) => depth < m,
    };
    if open && subtask_count(t) > 0 {
        match store.reply(&Request::TaskSubtasks(t.gid.clone())) {
            None => Step::Need(Request::TaskSubtasks(t.gid.clone())),
            Some(Reply::Failed(e)) => Step::Done(Err(e.copy())),
            Some(Reply::One(_)) => Step::Done(Err(shape_failure())),
            Some(Reply::Many(subs)) => if fuel == 0 {
                Step::Done(Err(Error::Cyclic(t.gid.clone())))
            } else {
                expand_subtasks_flat(store, subs, max, depth + 1, fuel - 1)
            },
        }
    } else {
        let v: Vec<Resource> = Vec::new();
        assert(resources_view(v@) =~= Seq::<ResourceV>::empty());
        Step::Done(Ok(v))
    }
}

/// Flattens `tasks` at `depth`: each task followed by its subtasks, expanded
/// depth-first while the depth gate is open.
pub fn expand_subtasks_flat(
    store: &Store,
    tasks: &Vec<Resource>,
    max: Option<usize>,
    depth: usize,
    fuel: usize,
) -> (out: Step<Result<Vec<Resource>, Error>>)
    requires
        depth + fuel <= usize::MAX,
    ensures
        list_step_view(out) == flatten_spec(
            store@,
            resources_view(tasks@),
            opt_nat(max),
            depth as nat,
            fuel as nat,
            tasks@.len(),
        ),
    decreases fuel, 1nat, 0nat,
{
    let ghost tv = resources_view(tasks@);
    let ghost mx = opt_nat(max);
    let mut all: Vec<Resource> = Vec::new();
    assert(resources_view(all@) =~= Seq::<ResourceV>::empty());
    let mut i: usize = 0;
    while i < tasks.len()
        invariant
            i <= tasks.len(),
            depth + fuel <= usize::MAX,
            tv == resources_view(tasks@),
            mx == opt_nat(max),
            flatten_spec(store@, tv, mx, depth as nat, fuel as nat, i as nat) == StepV::Done(
                Ok::<Seq<ResourceV>, ErrorV>(resources_view(all@)),
            ),
        decreases tasks.len() - i,
    {
        let t = &tasks[i];
        assert(tv[i as int] == t@);
        let step = expand_task(store, t, max, depth, fuel);
        match step {
            Step::Need(q) => {
                proof { lemma_flatten_stopped(store@, tv, mx, depth as nat, fuel as nat, (i + 1) as nat, tv.len()); }
                return Step::Need(q);
            },
            Step::Done(Err(e)) => {
                proof { lemma_flatten_stopped(store@, tv, mx, depth as nat, fuel as nat, (i + 1) as nat, tv.len()); }
                return Step::Done(Err(e));
            },
            Step::Done(Ok(sub)) => {
                let ghost before = resources_view(all@);
                all.push(t.copy());
                assert(resources_view(all@) =~= before.push(t@));
                let mut sub = sub;
                let ghost b2 = resources_view(all@);
                all.append(&mut sub);
                assert(resources_view(all@) =~= b2 + list_view_of(step));
            },
        }
        i = i + 1;
    }
    Step::Done(Ok(all))
}

pub open spec fn list_view_of(s: Step<Result<Vec<Resource>, Error>>) -> Seq<ResourceV> {
    match s {
        Step::Done(Ok(v)) => resources_view(v@),
        _ => Seq::empty(),
    }
}

/// Flattens the tasks of project `pid`, as `project_tasks_spec` says.
pub fn get_tasks_from_project(
    store: &Store,
    pid: &String,
    max: Option<usize>,
    fuel: usize,
) -> (out: Step<Result<Vec<Resource>, Error>>)
    ensures
        list_step_view(out) == project_tasks_spec(store@, pid@, opt_nat(max), fuel as nat),
{
    match store.reply(&Request::ProjectTasks(pid.clone())) {
        None => Step::Need(Request::ProjectTasks(pid.clone())),
        Some(Reply::Failed(e)) => Step::Done(Err(e.copy())),
        Some(Reply::One(_)) => Step::Done(Err(shape_failure())),
        Some(Reply::Many(ts)) => expand_subtasks_flat(store, ts, max, 0, fuel),
    }
}

/// The project identifiers of an expanded container, depth-first.
pub fn collect_project_gids_from_portfolio(p: &PortfolioWithItems) -> (r: Vec<String>)
    ensures
        r@.map_values(|s: String| s@) == leaf_ids(node_view(*p)),
    decreases p,
{
    let mut gids: Vec<String> = Vec::new();
    assert(gids@.map_values(|s: String| s@) =~= Seq::<Seq<char>>::empty());
    assert(p.items@.take(0) =~= Seq::<PortfolioItemExpanded>::empty());
    let mut i: usize = 0;
    while i < p.items.len()
        invariant
            i <= p.items.len(),
            gids@.map_values(|s: String| s@) == children_ids(children_view(p.items@.take(i as int))),
        decreases p.items.len() - i,
    {
        let ghost before = gids@.map_values(|s: String| s@);
        let ghost cv = children_view(p.items@.take(i as int));
        assert(p.items@.take(i + 1).subrange(0, i as int) =~= p.items@.take(i as int));
        assert(children_view(p.items@.take(i + 1)) == cv.push(child_view(p.items@[i as int])));
        assert(cv.push(child_view(p.items@[i as int])).subrange(0, cv.len() as int) =~= cv);
        assert(children_ids(cv.push(child_view(p.items@[i as int]))) == children_ids(cv) + child_ids(child_view(p.items@[i as int])));
        match &p.items[i] {
            PortfolioItemExpanded::Project(r) => {
                gids.push(r.gid.clone());
                assert(child_ids(child_view(p.items@[i as int])) == seq![r.gid@]);
                assert(gids@.map_values(|s: String| s@) =~= before + seq![r.gid@]);
            },
            PortfolioItemExpanded::Portfolio(n) => {
                assert(decreases_to!(p => p.items));
                let mut sub = collect_project_gids_from_portfolio(n);
                let ghost sv = sub@.map_values(|s: String| s@);
                gids.append(&mut sub);
                assert(gids@.map_values(|s: String| s@) =~= before + sv);
                assert(child_ids(child_view(p.items@[i as int])) == sv);
            },
        }
        i = i + 1;
    }
    assert(p.items@.take(p.items.len() as int) =~= p.items@);
    gids
}

/// Gathers the tasks of container `id`, as `portfolio_tasks_spec` says.
pub fn get_tasks_from_portfolio(
    store: &Store,
    id: &String,
    smax: Option<usize>,
    cmax: Option<usize>,
    fuel: usize,
) -> (out: Step<Result<Vec<Resource>, Error>>)
    ensures
        list_step_view(out) == portfolio_tasks_spec(store@, id@, opt_nat(smax), opt_nat(cmax), fuel as nat),
{
    let node = match fetch_portfolio_with_depth(store, id, cmax, 0, fuel) {
        Step::Need(q) => return Step::Need(q),
        Step::Done(Err(e)) => return Step::Done(Err(e)),
        Step::Done(Ok(n)) => n,
    };
    let pids = collect_project_gids_from_portfolio(&node);
    let ghost pv = pids@.map_values(|s: String| s@);
    let ghost mx = opt_nat(smax);
    let mut all: Vec<Resource> = Vec::new();
    assert(resources_view(all@) =~= Seq::<ResourceV>::empty());
    let mut i: usize = 0;
    while i < pids.len()
        invariant
            i <= pids.len(),
            pv == pids@.map_values(|s: String| s@),
            pv == leaf_ids(node_view(node)),
            mx == opt_nat(smax),
            expand_spec(store@, id@, opt_nat(cmax), 0, fuel as nat) == StepV::Done(
                Ok::<NodeV, ErrorV>(node_view(node)),
            ),
            projects_spec(store@, pv, mx, fuel as nat, i as nat) == StepV::Done(
                Ok::<Seq<ResourceV>, ErrorV>(resources_view(all@)),
            ),
        decreases pids.len() - i,
    {
        assert(pv[i as int] == pids@[i as int]@);
        let step = get_tasks_from_project(store, &pids[i], smax, fuel);
        match step {
            Step::Need(q) => {
                proof { lemma_projects_stopped(store@, pv, mx, fuel as nat, (i + 1) as nat, pv.len()); }
                return Step::Need(q);
            },
            Step::Done(Err(Error::NotFound(_))) => {},
            Step::Done(Err(e)) => {
                proof { lemma_projects_stopped(store@, pv, mx, fuel as nat, (i + 1) as nat, pv.len()); }
                return Step::Done(Err(e));
            },
            Step::Done(Ok(ts)) => {
                let ghost b = resources_view(all@);
                let mut ts = ts;
                let ghost tv = resources_view(ts@);
                all.append(&mut ts);
                assert(resources_view(all@) =~= b + tv);
            },
        }
        i = i + 1;
    }
    Step::Done(Ok(all))
}

/// Gathers the tasks of `gid`, whichever kind it is, with subtasks expanded to
/// `subtask_depth` levels and containers to `portfolio_depth` levels (`None`:
/// no limit), or names the request it needs first.
pub fn get_tasks_recursive(
    store: &Store,
    gid: &String,
    subtask_depth: Option<usize>,
    portfolio_depth: Option<usize>,
) -> (out: Step<Result<Vec<Resource>, Error>>)
    ensures
        list_step_view(out) == tasks_spec(store@, gid@, opt_nat(subtask_depth), opt_nat(portfolio_depth)),
{
    match store.reply(&Request::ProjectProbe(gid.clone())) {
        None => Step::Need(Request::ProjectProbe(gid.clone())),
        Some(Reply::One(_)) => get_tasks_from_project(store, gid, subtask_depth, store.len()),
        Some(Reply::Failed(Error::NotFound(_))) => get_tasks_from_portfolio(
            store,
            gid,
            subtask_depth,
            portfolio_depth,
            store.len(),
        ),
        Some(Reply::Failed(e)) => Step::Done(Err(e.copy())),
        Some(Reply::Many(_)) => Step::Done(Err(shape_failure())),
    }
}

} // verus!
