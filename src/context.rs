//! A task with its context: its subtasks, what it depends on and what
//! depends on it, and its comments, each part fetched only where asked for.

use vstd::prelude::*;
use crate::error::{Error, ErrorV};
use crate::store::{
    reply_for, resources_view, shape_error, shape_failure, Reply, ReplyV, Request, RequestV, Step,
    StepV, Store, StoreV,
};
use crate::tasks::{comments_of, extend_copies, is_comment_spec};
use crate::types::{Resource, ResourceV};

verus! {

/// A task and the parts of its context that were asked for; a part not asked
/// for is empty.
#[derive(Debug)]
pub struct TaskWithContext {
    pub task: Resource,
    pub subtasks: Vec<Resource>,
    pub dependencies: Vec<Resource>,
    pub dependents: Vec<Resource>,
    pub comments: Vec<Resource>,
}

/// The model of a [`TaskWithContext`].
pub struct TaskWithContextV {
    pub task: ResourceV,
    pub subtasks: Seq<ResourceV>,
    pub dependencies: Seq<ResourceV>,
    pub dependents: Seq<ResourceV>,
    pub comments: Seq<ResourceV>,
}

impl View for TaskWithContext {
    type V = TaskWithContextV;

    open spec fn view(&self) -> TaskWithContextV {
        TaskWithContextV {
            task: self.task@,
            subtasks: resources_view(self.subtasks@),
            dependencies: resources_view(self.dependencies@),
            dependents: resources_view(self.dependents@),
            comments: resources_view(self.comments@),
        }
    }
}

/// The resource that detail request `q` gave.
pub open spec fn one_of(st: StoreV, q: RequestV) -> StepV<Result<ResourceV, ErrorV>> {
    match reply_for(st, q) {
        None => StepV::Need(q),
        Some(ReplyV::One(r)) => StepV::Done(Ok(r)),
        Some(ReplyV::Failed(e)) => StepV::Done(Err(e)),
        Some(ReplyV::Many(_)) => StepV::Done(Err(shape_error())),
    }
}

/// The list that list request `q` gave, or nothing where it is not asked for.
pub open spec fn many_of(st: StoreV, q: RequestV, wanted: bool) -> StepV<Result<Seq<ResourceV>, ErrorV>> {
    if !wanted {
        StepV::Done(Ok(Seq::empty()))
    } else {
        match reply_for(st, q) {
            None => StepV::Need(q),
            Some(ReplyV::Many(v)) => StepV::Done(Ok(v)),
            Some(ReplyV::Failed(e)) => StepV::Done(Err(e)),
            Some(ReplyV::One(_)) => StepV::Done(Err(shape_error())),
        }
    }
}

/// The task `gid` with the parts of its context asked for, fetched in turn:
/// the task, its subtasks, its dependencies and dependents, its stories. The
/// first request needed or the first failure ends the walk.
pub open spec fn context_spec(
    st: StoreV,
    gid: Seq<char>,
    subtasks: bool,
    dependencies: bool,
    comments: bool,
) -> StepV<Result<TaskWithContextV, ErrorV>> {
    match one_of(st, RequestV::TaskDetail(gid)) {
        StepV::Need(q) => StepV::Need(q),
        StepV::Done(Err(e)) => StepV::Done(Err(e)),
        StepV::Done(Ok(task)) => match many_of(st, RequestV::TaskSubtaskRefs(gid), subtasks) {
            StepV::Need(q) => StepV::Need(q),
            StepV::Done(Err(e)) => StepV::Done(Err(e)),
            StepV::Done(Ok(subs)) => match many_of(st, RequestV::TaskDependencies(gid), dependencies) {
                StepV::Need(q) => StepV::Need(q),
                StepV::Done(Err(e)) => StepV::Done(Err(e)),
                StepV::Done(Ok(deps)) => match many_of(st, RequestV::TaskDependents(gid), dependencies) {
                    StepV::Need(q) => StepV::Need(q),
                    StepV::Done(Err(e)) => StepV::Done(Err(e)),
                    StepV::Done(Ok(dependents)) => match many_of(st, RequestV::TaskStories(gid), comments) {
                        StepV::Need(q) => StepV::Need(q),
                        StepV::Done(Err(e)) => StepV::Done(Err(e)),
                        StepV::Done(Ok(stories)) => StepV::Done(Ok(TaskWithContextV {
                            task,
                            subtasks: subs,
                            dependencies: deps,
                            dependents,
                            comments: stories.filter(|s: ResourceV| is_comment_spec(s)),
                        })),
                    },
                },
            },
        },
    }
}

pub open spec fn context_step_view(s: Step<Result<TaskWithContext, Error>>) -> StepV<Result<TaskWithContextV, ErrorV>> {
    match s {
        Step::Need(q) => StepV::Need(q@),
        Step::Done(Ok(t)) => StepV::Done(Ok(t@)),
        Step::Done(Err(e)) => StepV::Done(Err(e@)),
    }
}

pub open spec fn many_step_view(s: Step<Result<Vec<Resource>, Error>>) -> StepV<Result<Seq<ResourceV>, ErrorV>> {
    match s {
        Step::Need(q) => StepV::Need(q@),
        Step::Done(Ok(v)) => StepV::Done(Ok(resources_view(v@))),
        Step::Done(Err(e)) => StepV::Done(Err(e@)),
    }
}

fn fetch_many(store: &Store, q: Request, wanted: bool) -> (r: Step<Result<Vec<Resource>, Error>>)
    ensures
        many_step_view(r) == many_of(store@, q@, wanted),
{
    if !wanted {
        let v: Vec<Resource> = Vec::new();
        assert(resources_view(v@) =~= Seq::<ResourceV>::empty());
        return Step::Done(Ok(v));
    }
    match store.reply(&q) {
        None => Step::Need(q),
        Some(Reply::Many(v)) => {
            let mut out: Vec<Resource> = Vec::new();
            assert(resources_view(out@) =~= Seq::<ResourceV>::empty());
            extend_copies(&mut out, v);
            assert(resources_view(out@) =~= resources_view(v@));
            Step::Done(Ok(out))
        },
        Some(Reply::Failed(e)) => Step::Done(Err(e.copy())),
        Some(Reply::One(_)) => Step::Done(Err(shape_failure())),
    }
}

/// Fetches task `gid` with the parts of its context asked for, or names the
/// request it needs first.
pub fn get_task_with_context(
    store: &Store,
    gid: &String,
    include_subtasks: bool,
    include_dependencies: bool,
    include_comments: bool,
) -> (r: Step<Result<TaskWithContext, Error>>)
    ensures
        context_step_view(r) == context_spec(
            store@,
            gid@,
            include_subtasks,
            include_dependencies,
            include_comments,
        ),
{
    let task = match store.reply(&Request::TaskDetail(gid.clone())) {
        None => return Step::Need(Request::TaskDetail(gid.clone())),
        Some(Reply::One(t)) => t.copy(),
        Some(Reply::Failed(e)) => return Step::Done(Err(e.copy())),
        Some(Reply::Many(_)) => return Step::Done(Err(shape_failure())),
    };
    let subtasks = match fetch_many(store, Request::TaskSubtaskRefs(gid.clone()), include_subtasks) {
        Step::Need(q) => return Step::Need(q),
        Step::Done(Err(e)) => return Step::Done(Err(e)),
        Step::Done(Ok(v)) => v,
    };
    let dependencies = match fetch_many(store, Request::TaskDependencies(gid.clone()), include_dependencies) {
        Step::Need(q) => return Step::Need(q),
        Step::Done(Err(e)) => return Step::Done(Err(e)),
        Step::Done(Ok(v)) => v,
    };
    let dependents = match fetch_many(store, Request::TaskDependents(gid.clone()), include_dependencies) {
        Step::Need(q) => return Step::Need(q),
        Step::Done(Err(e)) => return Step::Done(Err(e)),
        Step::Done(Ok(v)) => v,
    };
    let stories = match fetch_many(store, Request::TaskStories(gid.clone()), include_comments) {
        Step::Need(q) => return Step::Need(q),
        Step::Done(Err(e)) => return Step::Done(Err(e)),
        Step::Done(Ok(v)) => v,
    };
    let comments = comments_of(stories);
    Step::Done(Ok(TaskWithContext { task, subtasks, dependencies, dependents, comments }))
}

} // verus!
