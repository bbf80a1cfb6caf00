//! The responses recorded so far for one call. Each traversal is a function of
//! this store: it either finishes, or names the one request whose response it
//! needs next. Whoever drives it performs that request, records the response,
//! and runs the traversal again.

use vstd::prelude::*;
use crate::error::{Error, ErrorV};
use crate::json::str_eq;
use vstd::string::StringExecFns;
use crate::types::{Resource, ResourceV};

verus! {

/// A request that a traversal can need.
#[derive(Debug)]
pub enum Request {
    /// The detail of a container.
    PortfolioDetail(String),
    /// Every page of a container's item references.
    PortfolioItems(String),
    /// The detail of a project.
    ProjectDetail(String),
    /// A minimal fetch of an identifier as a project, to learn its kind.
    ProjectProbe(String),
    /// Every page of a project's tasks.
    ProjectTasks(String),
    /// Every page of a task's subtasks.
    TaskSubtasks(String),
    /// Every page of the favorite projects of a workspace.
    FavoriteProjects(String),
    /// Every page of the favorite containers of a workspace.
    FavoritePortfolios(String),
    /// The full detail of a task.
    TaskDetail(String),
    /// Every page of a task's subtasks, as short references.
    TaskSubtaskRefs(String),
    /// Every page of the tasks a task depends on.
    TaskDependencies(String),
    /// Every page of the tasks that depend on a task.
    TaskDependents(String),
    /// Every page of a task's stories.
    TaskStories(String),
}

/// The model of a [`Request`].
pub enum RequestV {
    PortfolioDetail(Seq<char>),
    PortfolioItems(Seq<char>),
    ProjectDetail(Seq<char>),
    ProjectProbe(Seq<char>),
    ProjectTasks(Seq<char>),
    TaskSubtasks(Seq<char>),
    FavoriteProjects(Seq<char>),
    FavoritePortfolios(Seq<char>),
    TaskDetail(Seq<char>),
    TaskSubtaskRefs(Seq<char>),
    TaskDependencies(Seq<char>),
    TaskDependents(Seq<char>),
    TaskStories(Seq<char>),
}

impl View for Request {
    type V = RequestV;

    open spec fn view(&self) -> RequestV {
        match self {
            Request::PortfolioDetail(s) => RequestV::PortfolioDetail(s@),
            Request::PortfolioItems(s) => RequestV::PortfolioItems(s@),
            Request::ProjectDetail(s) => RequestV::ProjectDetail(s@),
            Request::ProjectProbe(s) => RequestV::ProjectProbe(s@),
            Request::ProjectTasks(s) => RequestV::ProjectTasks(s@),
            Request::TaskSubtasks(s) => RequestV::TaskSubtasks(s@),
            Request::FavoriteProjects(s) => RequestV::FavoriteProjects(s@),
            Request::FavoritePortfolios(s) => RequestV::FavoritePortfolios(s@),
            Request::TaskDetail(s) => RequestV::TaskDetail(s@),
            Request::TaskSubtaskRefs(s) => RequestV::TaskSubtaskRefs(s@),
            Request::TaskDependencies(s) => RequestV::TaskDependencies(s@),
            Request::TaskDependents(s) => RequestV::TaskDependents(s@),
            Request::TaskStories(s) => RequestV::TaskStories(s@),
        }
    }
}

/// A recorded response: one resource, every resource of a list, or a failure.
#[derive(Debug)]
pub enum Reply {
    One(Resource),
    Many(Vec<Resource>),
    Failed(Error),
}

/// The model of a [`Reply`].
pub enum ReplyV {
    One(ResourceV),
    Many(Seq<ResourceV>),
    Failed(ErrorV),
}

pub open spec fn resources_view(v: Seq<Resource>) -> Seq<ResourceV> {
    v.map_values(|r: Resource| r@)
}

impl View for Reply {
    type V = ReplyV;

    open spec fn view(&self) -> ReplyV {
        match self {
            Reply::One(r) => ReplyV::One(r@),
            Reply::Many(v) => ReplyV::Many(resources_view(v@)),
            Reply::Failed(e) => ReplyV::Failed(e@),
        }
    }
}

/// The model of a store: the recorded (request, response) pairs in order.
pub type StoreV = Seq<(RequestV, ReplyV)>;

/// The responses recorded for one call.
pub struct Store {
    pub entries: Vec<(Request, Reply)>,
}

impl View for Store {
    type V = StoreV;

    open spec fn view(&self) -> StoreV {
        self.entries@.map_values(|e: (Request, Reply)| (e.0@, e.1@))
    }
}

/// The first response recorded for `q`.
pub open spec fn reply_for(st: StoreV, q: RequestV) -> Option<ReplyV>
    decreases st.len(),
{
    if st.len() == 0 {
        None
    } else if st[0].0 == q {
        Some(st[0].1)
    } else {
        reply_for(st.drop_first(), q)
    }
}

/// Either the request a traversal needs next, or its outcome.
#[derive(Debug)]
pub enum Step<T> {
    Need(Request),
    Done(T),
}

/// The model of a [`Step`].
pub enum StepV<T> {
    Need(RequestV),
    Done(T),
}

/// The error of a response whose shape does not fit its request.
pub open spec fn shape_error() -> ErrorV {
    ErrorV::Parse("unexpected response shape"@)
}

pub fn shape_failure() -> (r: Error)
    ensures
        r@ == shape_error(),
{
    Error::Parse(String::from_str("unexpected response shape"))
}

/// Whether two requests are the same.
pub fn same_request(a: &Request, b: &Request) -> (r: bool)
    ensures
        r == (a@ == b@),
{
    match (a, b) {
        (Request::PortfolioDetail(x), Request::PortfolioDetail(y)) => str_eq(x, y),
        (Request::PortfolioItems(x), Request::PortfolioItems(y)) => str_eq(x, y),
        (Request::ProjectDetail(x), Request::ProjectDetail(y)) => str_eq(x, y),
        (Request::ProjectProbe(x), Request::ProjectProbe(y)) => str_eq(x, y),
        (Request::ProjectTasks(x), Request::ProjectTasks(y)) => str_eq(x, y),
        (Request::TaskSubtasks(x), Request::TaskSubtasks(y)) => str_eq(x, y),
        (Request::FavoriteProjects(x), Request::FavoriteProjects(y)) => str_eq(x, y),
        (Request::FavoritePortfolios(x), Request::FavoritePortfolios(y)) => str_eq(x, y),
        (Request::TaskDetail(x), Request::TaskDetail(y)) => str_eq(x, y),
        (Request::TaskSubtaskRefs(x), Request::TaskSubtaskRefs(y)) => str_eq(x, y),
        (Request::TaskDependencies(x), Request::TaskDependencies(y)) => str_eq(x, y),
        (Request::TaskDependents(x), Request::TaskDependents(y)) => str_eq(x, y),
        (Request::TaskStories(x), Request::TaskStories(y)) => str_eq(x, y),
        _ => false,
    }
}

impl Store {
    /// A store with nothing recorded.
    pub fn new() -> (r: Store)
        ensures
            r@ == Seq::<(RequestV, ReplyV)>::empty(),
    {
        let r = Store { entries: Vec::new() };
        assert(r@ =~= Seq::<(RequestV, ReplyV)>::empty());
        r
    }

    /// The number of recorded responses.
    pub fn len(&self) -> (r: usize)
        ensures
            r == self@.len(),
    {
        self.entries.len()
    }

    /// Records the response to a request.
    pub fn record(&mut self, q: Request, reply: Reply)
        ensures
            final(self)@ == old(self)@.push((q@, reply@)),
    {
        let ghost before = self@;
        self.entries.push((q, reply));
        assert(self@ =~= before.push((q@, reply@)));
    }

    /// The first response recorded for `q`.
    pub fn reply(&self, q: &Request) -> (r: Option<&Reply>)
        ensures
            match r {
                Some(x) => reply_for(self@, q@) == Some(x@),
                None => reply_for(self@, q@) is None,
            },
    {
        let mut i: usize = 0;
        assert(self@.skip(0) =~= self@);
        while i < self.entries.len()
            invariant
                i <= self.entries.len(),
                reply_for(self@, q@) == reply_for(self@.skip(i as int), q@),
            decreases self.entries.len() - i,
        {
            assert(self@.skip(i as int).drop_first() =~= self@.skip(i + 1));
            if same_request(&self.entries[i].0, q) {
                return Some(&self.entries[i].1);
            }
            i = i + 1;
        }
        None
    }
}

} // verus!
