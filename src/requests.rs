//! What each request of a traversal sends, and how its response becomes a
//! recorded reply.

use vstd::prelude::*;
use vstd::string::StringExecFns;
use crate::envelope::{check_status, is_success, response_error, data_of, page_of, DataWrapper, ListWrapper};
use crate::error::{join2, Error, ErrorV};
use crate::fields::{
    PORTFOLIO_FIELDS, PORTFOLIO_ITEMS_FIELDS, PROJECT_FIELDS, RECURSIVE_TASK_FIELDS, STORY_FIELDS,
    SUBTASK_FIELDS, TASK_FULL_FIELDS,
};
use crate::json::{entries_view, EntriesV};
use crate::resource::resource_of;
use crate::store::{resources_view, Reply, ReplyV, Request, RequestV};
use crate::types::{Resource, ResourceV};

verus! {

/// The path a request is sent to.
pub open spec fn path_of(q: RequestV) -> Seq<char> {
    match q {
        RequestV::PortfolioDetail(id) => "/portfolios/"@ + id,
        RequestV::PortfolioItems(id) => "/portfolios/"@ + id + "/items"@,
        RequestV::ProjectDetail(id) => "/projects/"@ + id,
        RequestV::ProjectProbe(id) => "/projects/"@ + id,
        RequestV::ProjectTasks(id) => "/projects/"@ + id + "/tasks"@,
        RequestV::TaskSubtasks(id) => "/tasks/"@ + id + "/subtasks"@,
        RequestV::FavoriteProjects(_) => "/users/me/favorites"@,
        RequestV::FavoritePortfolios(_) => "/users/me/favorites"@,
        RequestV::TaskDetail(id) => "/tasks/"@ + id,
        RequestV::TaskSubtaskRefs(id) => "/tasks/"@ + id + "/subtasks"@,
        RequestV::TaskDependencies(id) => "/tasks/"@ + id + "/dependencies"@,
        RequestV::TaskDependents(id) => "/tasks/"@ + id + "/dependents"@,
        RequestV::TaskStories(id) => "/tasks/"@ + id + "/stories"@,
    }
}

/// The query a request is sent with.
pub open spec fn query_of(q: RequestV) -> EntriesV {
    match q {
        RequestV::PortfolioDetail(_) => seq![("opt_fields"@, PORTFOLIO_FIELDS@)],
        RequestV::PortfolioItems(_) => seq![("opt_fields"@, PORTFOLIO_ITEMS_FIELDS@)],
        RequestV::ProjectDetail(_) => seq![("opt_fields"@, PROJECT_FIELDS@)],
        RequestV::ProjectProbe(_) => seq![("opt_fields"@, "gid"@)],
        RequestV::ProjectTasks(_) => seq![("opt_fields"@, RECURSIVE_TASK_FIELDS@)],
        RequestV::TaskSubtasks(_) => seq![("opt_fields"@, RECURSIVE_TASK_FIELDS@)],
        RequestV::FavoriteProjects(ws) => seq![
            ("workspace"@, ws),
            ("resource_type"@, "project"@),
            ("opt_fields"@, "gid,resource_type,name"@),
        ],
        RequestV::FavoritePortfolios(ws) => seq![
            ("workspace"@, ws),
            ("resource_type"@, "portfolio"@),
            ("opt_fields"@, "gid,resource_type,name"@),
        ],
        RequestV::TaskDetail(_) => seq![("opt_fields"@, TASK_FULL_FIELDS@)],
        RequestV::TaskSubtaskRefs(_) => seq![("opt_fields"@, SUBTASK_FIELDS@)],
        RequestV::TaskDependencies(_) => seq![("opt_fields"@, "gid,name,resource_type"@)],
        RequestV::TaskDependents(_) => seq![("opt_fields"@, "gid,name,resource_type"@)],
        RequestV::TaskStories(_) => seq![("opt_fields"@, STORY_FIELDS@)],
    }
}

/// Whether a request reads a paginated list.
pub open spec fn is_list_request(q: RequestV) -> bool {
    match q {
        RequestV::PortfolioDetail(_) | RequestV::ProjectDetail(_) | RequestV::ProjectProbe(_)
        | RequestV::TaskDetail(_) => false,
        _ => true,
    }
}

fn join3(a: &str, b: &str, c: &str) -> (r: String)
    ensures
        r@ == a@ + b@ + c@,
{
    let mut s = join2(a, b);
    s.append(c);
    s
}

fn pair(k: &str, v: &str) -> (r: (String, String))
    ensures
        r.0@ == k@,
        r.1@ == v@,
{
    (String::from_str(k), String::from_str(v))
}

fn favorites_query(ws: &String, kind: &str) -> (r: Vec<(String, String)>)
    ensures
        entries_view(r@) == seq![
            ("workspace"@, ws@),
            ("resource_type"@, kind@),
            ("opt_fields"@, "gid,resource_type,name"@),
        ],
{
    let mut v: Vec<(String, String)> = Vec::new();
    v.push(pair("workspace", ws.as_str()));
    v.push(pair("resource_type", kind));
    v.push(pair("opt_fields", "gid,resource_type,name"));
    assert(entries_view(v@) =~= seq![
        ("workspace"@, ws@),
        ("resource_type"@, kind@),
        ("opt_fields"@, "gid,resource_type,name"@),
    ]);
    v
}

fn fields_query(fields: &str) -> (r: Vec<(String, String)>)
    ensures
        entries_view(r@) == seq![("opt_fields"@, fields@)],
{
    let mut v: Vec<(String, String)> = Vec::new();
    v.push(pair("opt_fields", fields));
    assert(entries_view(v@) =~= seq![("opt_fields"@, fields@)]);
    v
}

impl Request {
    /// The path this request is sent to.
    pub fn path(&self) -> (r: String)
        ensures
            r@ == path_of(self@),
    {
        match self {
            Request::PortfolioDetail(id) => join2("/portfolios/", id.as_str()),
            Request::PortfolioItems(id) => join3("/portfolios/", id.as_str(), "/items"),
            Request::ProjectDetail(id) => join2("/projects/", id.as_str()),
            Request::ProjectProbe(id) => join2("/projects/", id.as_str()),
            Request::ProjectTasks(id) => join3("/projects/", id.as_str(), "/tasks"),
            Request::TaskSubtasks(id) => join3("/tasks/", id.as_str(), "/subtasks"),
            Request::FavoriteProjects(_) => String::from_str("/users/me/favorites"),
            Request::FavoritePortfolios(_) => String::from_str("/users/me/favorites"),
            Request::TaskDetail(id) => join2("/tasks/", id.as_str()),
            Request::TaskSubtaskRefs(id) => join3("/tasks/", id.as_str(), "/subtasks"),
            Request::TaskDependencies(id) => join3("/tasks/", id.as_str(), "/dependencies"),
            Request::TaskDependents(id) => join3("/tasks/", id.as_str(), "/dependents"),
            Request::TaskStories(id) => join3("/tasks/", id.as_str(), "/stories"),
        }
    }

    /// The query this request is sent with.
    pub fn query(&self) -> (r: Vec<(String, String)>)
        ensures
            entries_view(r@) == query_of(self@),
    {
        match self {
            Request::PortfolioDetail(_) => fields_query(PORTFOLIO_FIELDS),
            Request::PortfolioItems(_) => fields_query(PORTFOLIO_ITEMS_FIELDS),
            Request::ProjectDetail(_) => fields_query(PROJECT_FIELDS),
            Request::ProjectProbe(_) => fields_query("gid"),
            Request::ProjectTasks(_) => fields_query(RECURSIVE_TASK_FIELDS),
            Request::TaskSubtasks(_) => fields_query(RECURSIVE_TASK_FIELDS),
            Request::FavoriteProjects(ws) => favorites_query(ws, "project"),
            Request::FavoritePortfolios(ws) => favorites_query(ws, "portfolio"),
            Request::TaskDetail(_) => fields_query(TASK_FULL_FIELDS),
            Request::TaskSubtaskRefs(_) => fields_query(SUBTASK_FIELDS),
            Request::TaskDependencies(_) => fields_query("gid,name,resource_type"),
            Request::TaskDependents(_) => fields_query("gid,name,resource_type"),
            Request::TaskStories(_) => fields_query(STORY_FIELDS),
        }
    }

    /// Whether this request reads a paginated list.
    pub fn is_list(&self) -> (r: bool)
        ensures
            r == is_list_request(self@),
    {
        match self {
            Request::PortfolioDetail(_) | Request::ProjectDetail(_) | Request::ProjectProbe(_)
            | Request::TaskDetail(_) => false,
            _ => true,
        }
    }
}

/// The resource a single-object response holds, or its failure.
pub open spec fn single_outcome(status: u16, body: Seq<char>) -> Result<ResourceV, ErrorV> {
    if !is_success(status) {
        Err(response_error(status, body))
    } else {
        match data_of(body) {
            None => Err(ErrorV::Parse("missing field `data`"@)),
            Some(d) => match resource_of(d) {
                None => Err(ErrorV::Parse("invalid resource object"@)),
                Some(r) => Ok(r),
            },
        }
    }
}

/// Decodes a single-object response into its resource.
pub fn decode_single(status: u16, body: &str) -> (r: Result<Resource, Error>)
    ensures
        match r {
            Ok(res) => single_outcome(status, body@) == Ok::<ResourceV, ErrorV>(res@),
            Err(e) => single_outcome(status, body@) == Err::<ResourceV, ErrorV>(e@),
        },
{
    match check_status(status, body) {
        Err(e) => Err(e),
        Ok(()) => match DataWrapper::from_json_text(body) {
            Err(e) => Err(e),
            Ok(w) => Resource::from_json_text(w.data.as_str()),
        },
    }
}

/// Decodes one page of a list response.
pub fn decode_page(status: u16, body: &str) -> (r: Result<ListWrapper, Error>)
    ensures
        match r {
            Ok(w) => is_success(status) && page_of(body@) == Some(w@),
            Err(e) => if is_success(status) {
                page_of(body@) is None && e@ == ErrorV::Parse("invalid list page"@)
            } else {
                e@ == response_error(status, body@)
            },
        },
{
    match check_status(status, body) {
        Err(e) => Err(e),
        Ok(()) => ListWrapper::from_json_text(body),
    }
}

/// Decodes every item of a list into a resource: all of them, or the failure
/// of the first that is none.
pub fn decode_items(items: &Vec<String>) -> (r: Result<Vec<Resource>, Error>)
    ensures
        match r {
            Ok(v) => v@.len() == items@.len() && forall|i: int|
                0 <= i < items@.len() ==> resource_of(#[trigger] items@[i]@) == Some(v@[i]@),
            Err(e) => e@ == ErrorV::Parse("invalid resource object"@) && exists|i: int|
                0 <= i < items@.len() && resource_of(#[trigger] items@[i]@) is None,
        },
{
    let mut out: Vec<Resource> = Vec::new();
    let mut i: usize = 0;
    while i < items.len()
        invariant
            i <= items.len(),
            out@.len() == i,
            forall|j: int| 0 <= j < i ==> resource_of(#[trigger] items@[j]@) == Some(out@[j]@),
        decreases items.len() - i,
    {
        match Resource::from_json_text(items[i].as_str()) {
            Ok(r) => out.push(r),
            Err(e) => return Err(e),
        }
        i = i + 1;
    }
    Ok(out)
}

/// The reply to record for a detail request.
pub fn single_reply(result: Result<Resource, Error>) -> (r: Reply)
    ensures
        r@ == match result {
            Ok(res) => ReplyV::One(res@),
            Err(e) => ReplyV::Failed(e@),
        },
{
    match result {
        Ok(res) => Reply::One(res),
        Err(e) => Reply::Failed(e),
    }
}

/// The reply to record for a list request.
pub fn list_reply(result: Result<Vec<Resource>, Error>) -> (r: Reply)
    ensures
        r@ == match result {
            Ok(v) => ReplyV::Many(resources_view(v@)),
            Err(e) => ReplyV::Failed(e@),
        },
{
    match result {
        Ok(v) => Reply::Many(v),
        Err(e) => Reply::Failed(e),
    }
}

} // verus!
