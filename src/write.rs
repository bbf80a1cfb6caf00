//! Creations and updates: which endpoint each kind calls, with what body,
//! and which inputs it requires.

use vstd::prelude::*;
use vstd::string::StringExecFns;
use crate::error::join2;
use crate::helpers::{
    join, join_commas, resolve_workspace_gid, strings_view, validation_error, workspace_of,
    ToolError,
};
use crate::json::{entries_view, quote, quoted_of, EntriesV};
use crate::link::{array_of, array_text, quoted_opt, push_quoted};
use crate::params::{
    CreateParams, CreateResourceType, DateVariableParam, RoleAssignmentParam, UpdateParams,
    UpdateResourceType,
};
use crate::resource::{entries_text, object_text};
use crate::search::{opt_bool_text, push_bool, push_opt};
use crate::types::opt_view;

verus! {

/// The request of a creation or update.
#[derive(Debug)]
pub struct WriteCall {
    /// The path the body is sent to.
    pub path: String,
    /// The members of the body's `data` object, each value as JSON text.
    pub data: Vec<(String, String)>,
    /// The context of a failure of the call.
    pub context: String,
    /// For a duplicate, the JSON array of what it copies, which the body
    /// carries beside `data`'s other members under the service's own key.
    pub copy_options: Option<String>,
}

/// The model of a [`WriteCall`].
pub struct WriteCallV {
    pub path: Seq<char>,
    pub data: EntriesV,
    pub context: Seq<char>,
    pub copy_options: Option<Seq<char>>,
}

impl View for WriteCall {
    type V = WriteCallV;

    open spec fn view(&self) -> WriteCallV {
        WriteCallV {
            path: self.path@,
            data: entries_view(self.data@),
            context: self.context@,
            copy_options: opt_view(self.copy_options),
        }
    }
}

pub open spec fn qs(o: Option<String>) -> Option<Seq<char>> {
    quoted_opt(opt_view(o))
}

pub open spec fn qlist(o: Option<Vec<String>>) -> Option<Seq<char>> {
    match o {
        Some(v) => Some(array_text(strings_view(v@))),
        None => None,
    }
}

/// The JSON array of (gid, value) objects.
pub open spec fn pairs_text(v: Seq<(Seq<char>, Seq<char>)>) -> Seq<char> {
    "["@ + join_commas(
        v.map_values(
            |p: (Seq<char>, Seq<char>)|
                object_text(seq![("gid"@, quoted_of(p.0)), ("value"@, quoted_of(p.1))]),
        ),
    ) + "]"@
}

pub open spec fn dates_text(o: Option<Vec<DateVariableParam>>) -> Option<Seq<char>> {
    match o {
        Some(v) => Some(pairs_text(v@.map_values(|d: DateVariableParam| (d.gid@, d.value@)))),
        None => None,
    }
}

pub open spec fn roles_text(o: Option<Vec<RoleAssignmentParam>>) -> Option<Seq<char>> {
    match o {
        Some(v) => Some(pairs_text(v@.map_values(|d: RoleAssignmentParam| (d.gid@, d.value@)))),
        None => None,
    }
}

/// A required input, or the error text where it is absent.
pub open spec fn required(o: Option<String>, message: Seq<char>) -> Result<Seq<char>, Seq<char>> {
    match o {
        Some(s) => Ok(s@),
        None => Err(message),
    }
}

pub open spec fn named(name: Seq<char>) -> EntriesV {
    seq![("name"@, quoted_of(name))]
}

pub open spec fn new_task_data(p: CreateParams) -> EntriesV {
    let e = push_opt(Seq::empty(), "name"@, qs(p.name));
    let e = push_opt(e, "workspace"@, qs(p.workspace_gid));
    let e = push_opt(e, "projects"@, match p.project_gid {
        Some(g) => Some(array_text(seq![g@])),
        None => None,
    });
    let e = push_opt(e, "assignee"@, qs(p.assignee));
    let e = push_opt(e, "due_on"@, qs(p.due_on));
    let e = push_opt(e, "start_on"@, qs(p.start_on));
    let e = push_opt(e, "notes"@, qs(p.notes));
    let e = push_opt(e, "html_notes"@, qs(p.html_notes));
    push_opt(e, "custom_fields"@, opt_view(p.custom_fields))
}

pub open spec fn new_subtask_data(p: CreateParams) -> EntriesV {
    let e = push_opt(Seq::empty(), "name"@, qs(p.name));
    let e = push_opt(e, "assignee"@, qs(p.assignee));
    let e = push_opt(e, "due_on"@, qs(p.due_on));
    let e = push_opt(e, "start_on"@, qs(p.start_on));
    let e = push_opt(e, "notes"@, qs(p.notes));
    let e = push_opt(e, "html_notes"@, qs(p.html_notes));
    push_opt(e, "custom_fields"@, opt_view(p.custom_fields))
}

pub open spec fn new_project_data(p: CreateParams, name: Seq<char>) -> EntriesV {
    let e = push_opt(named(name), "workspace"@, qs(p.workspace_gid));
    let e = push_opt(e, "team"@, qs(p.team_gid));
    let e = push_opt(e, "color"@, qs(p.color));
    let e = push_opt(e, "notes"@, qs(p.notes));
    let e = push_opt(e, "html_notes"@, qs(p.html_notes));
    let e = push_opt(e, "due_on"@, qs(p.due_on));
    let e = push_opt(e, "start_on"@, qs(p.start_on));
    push_opt(e, "privacy_setting"@, qs(p.privacy_setting))
}

pub open spec fn from_template_data(p: CreateParams, name: Seq<char>) -> EntriesV {
    let e = push_opt(named(name), "team"@, qs(p.team_gid));
    let e = push_opt(e, "public"@, opt_bool_text(p.public));
    let e = push_opt(e, "requested_dates"@, dates_text(p.requested_dates));
    push_opt(e, "requested_roles"@, roles_text(p.requested_roles))
}

pub open spec fn with_workspace(name: Seq<char>, ws: Seq<char>) -> EntriesV {
    named(name).push(("workspace"@, quoted_of(ws)))
}

/// The request of a creation, or the error text of its input; `default` is
/// the configured workspace.
pub open spec fn create_call_of(p: CreateParams, default: Option<String>) -> Result<WriteCallV, Seq<char>> {
    match p.resource_type {
        CreateResourceType::Task => Ok(WriteCallV { path: "/tasks"@, data: new_task_data(p), context: "Failed to create task"@, copy_options: None }),
        CreateResourceType::Subtask => match required(p.task_gid, "task_gid is required for subtask"@) {
            Err(m) => Err(m),
            Ok(t) => Ok(WriteCallV { path: "/tasks/"@ + t + "/subtasks"@, data: new_subtask_data(p), context: "Failed to create subtask"@, copy_options: None }),
        },
        CreateResourceType::Project => match required(p.name, "name is required for project"@) {
            Err(m) => Err(m),
            Ok(n) => Ok(WriteCallV { path: "/projects"@, data: new_project_data(p, n), context: "Failed to create project"@, copy_options: None }),
        },
        CreateResourceType::ProjectFromTemplate => match required(p.template_gid, "template_gid is required"@) {
            Err(m) => Err(m),
            Ok(t) => match required(p.name, "name is required"@) {
                Err(m) => Err(m),
                Ok(n) => Ok(WriteCallV {
                    path: "/project_templates/"@ + t + "/instantiateProject"@,
                    data: from_template_data(p, n),
                    context: "Failed to instantiate project from template"@, copy_options: None,
                }),
            },
        },
        CreateResourceType::Portfolio => match workspace_of(p.workspace_gid, default) {
            Err(m) => Err(m),
            Ok(ws) => match required(p.name, "name is required for portfolio"@) {
                Err(m) => Err(m),
                Ok(n) => {
                    let e = push_opt(with_workspace(n, ws), "color"@, qs(p.color));
                    Ok(WriteCallV {
                        path: "/portfolios"@,
                        data: push_opt(e, "public"@, opt_bool_text(p.public)),
                        context: "Failed to create portfolio"@, copy_options: None,
                    })
                },
            },
        },
        CreateResourceType::Section => match required(p.project_gid, "project_gid is required for section"@) {
            Err(m) => Err(m),
            Ok(g) => match required(p.name, "name is required for section"@) {
                Err(m) => Err(m),
                Ok(n) => Ok(WriteCallV { path: "/projects/"@ + g + "/sections"@, data: named(n), context: "Failed to create section"@, copy_options: None }),
            },
        },
        CreateResourceType::Comment => match required(p.task_gid, "task_gid is required for comment"@) {
            Err(m) => Err(m),
            Ok(t) => {
                let data = match p.html_text {
                    Some(h) => Ok(seq![("html_text"@, quoted_of(h@))]),
                    None => match p.text {
                        Some(x) => Ok(seq![("text"@, quoted_of(x@))]),
                        None => match p.notes {
                            Some(x) => Ok(seq![("text"@, quoted_of(x@))]),
                            None => Err("text, html_text, or notes is required for comment"@),
                        },
                    },
                };
                match data {
                    Err(m) => Err(m),
                    Ok(d) => Ok(WriteCallV { path: "/tasks/"@ + t + "/stories"@, data: d, context: "Failed to create comment"@, copy_options: None }),
                }
            },
        },
        CreateResourceType::StatusUpdate => match required(p.parent_gid, "parent_gid is required for status update"@) {
            Err(m) => Err(m),
            Ok(g) => match required(p.status_type, "status_type is required for status update"@) {
                Err(m) => Err(m),
                Ok(s) => {
                    let e = seq![("parent"@, quoted_of(g)), ("status_type"@, quoted_of(s))];
                    let e = push_opt(e, "title"@, qs(p.title));
                    Ok(WriteCallV {
                        path: "/status_updates"@,
                        data: push_opt(e, "text"@, qs(p.text)),
                        context: "Failed to create status update"@, copy_options: None,
                    })
                },
            },
        },
        CreateResourceType::Tag => match workspace_of(p.workspace_gid, default) {
            Err(m) => Err(m),
            Ok(ws) => match required(p.name, "name is required for tag"@) {
                Err(m) => Err(m),
                Ok(n) => {
                    let e = push_opt(with_workspace(n, ws), "color"@, qs(p.color));
                    Ok(WriteCallV { path: "/tags"@, data: push_opt(e, "notes"@, qs(p.notes)), context: "Failed to create tag"@, copy_options: None })
                },
            },
        },
        CreateResourceType::ProjectDuplicate => match required(p.source_gid, "source_gid is required for project_duplicate"@) {
            Err(m) => Err(m),
            Ok(s) => match required(p.name, "name is required for project_duplicate"@) {
                Err(m) => Err(m),
                Ok(n) => {
                    Ok(WriteCallV {
                        path: "/projects/"@ + s + "/duplicate"@,
                        data: push_opt(named(n), "team"@, qs(p.team_gid)),
                        context: "Failed to duplicate project"@,
                        copy_options: qlist(p.copy_options),
                    })
                },
            },
        },
        CreateResourceType::TaskDuplicate => match required(p.source_gid, "source_gid is required for task_duplicate"@) {
            Err(m) => Err(m),
            Ok(s) => match required(p.name, "name is required for task_duplicate"@) {
                Err(m) => Err(m),
                Ok(n) => Ok(WriteCallV {
                    path: "/tasks/"@ + s + "/duplicate"@,
                    data: named(n),
                    context: "Failed to duplicate task"@,
                    copy_options: qlist(p.copy_options),
                }),
            },
        },
        CreateResourceType::ProjectBrief => match required(p.project_gid, "project_gid is required for project_brief"@) {
            Err(m) => Err(m),
            Ok(g) => {
                let e = push_opt(push_opt(Seq::empty(), "text"@, qs(p.text)), "html_text"@, qs(p.html_text));
                if e.len() == 0 {
                    Err("text or html_text is required for project_brief"@)
                } else {
                    Ok(WriteCallV { path: "/projects/"@ + g + "/project_briefs"@, data: e, context: "Failed to create project brief"@, copy_options: None })
                }
            },
        },
    }
}

pub open spec fn update_data(p: UpdateParams) -> Result<EntriesV, Seq<char>> {
    match p.resource_type {
        UpdateResourceType::Task => {
            let e = push_opt(Seq::empty(), "name"@, qs(p.name));
            let e = push_opt(e, "assignee"@, qs(p.assignee));
            let e = push_opt(e, "due_on"@, qs(p.due_on));
            let e = push_opt(e, "start_on"@, qs(p.start_on));
            let e = push_opt(e, "notes"@, qs(p.notes));
            let e = push_opt(e, "html_notes"@, qs(p.html_notes));
            let e = push_opt(e, "completed"@, opt_bool_text(p.completed));
            Ok(push_opt(e, "custom_fields"@, opt_view(p.custom_fields)))
        },
        UpdateResourceType::Project => {
            let e = push_opt(Seq::empty(), "name"@, qs(p.name));
            let e = push_opt(e, "color"@, qs(p.color));
            let e = push_opt(e, "notes"@, qs(p.notes));
            let e = push_opt(e, "html_notes"@, qs(p.html_notes));
            let e = push_opt(e, "due_on"@, qs(p.due_on));
            let e = push_opt(e, "start_on"@, qs(p.start_on));
            let e = push_opt(e, "archived"@, opt_bool_text(p.archived));
            let e = push_opt(e, "privacy_setting"@, qs(p.privacy_setting));
            Ok(push_opt(e, "custom_fields"@, opt_view(p.custom_fields)))
        },
        UpdateResourceType::Portfolio => {
            let e = push_opt(Seq::empty(), "name"@, qs(p.name));
            let e = push_opt(e, "color"@, qs(p.color));
            Ok(push_opt(e, "public"@, opt_bool_text(p.public)))
        },
        UpdateResourceType::Section => match required(p.name, "name is required for section update"@) {
            Err(m) => Err(m),
            Ok(n) => Ok(named(n)),
        },
        UpdateResourceType::Tag => {
            let e = push_opt(Seq::empty(), "name"@, qs(p.name));
            let e = push_opt(e, "color"@, qs(p.color));
            Ok(push_opt(e, "notes"@, qs(p.notes)))
        },
        UpdateResourceType::Comment => match p.html_text {
            Some(h) => Ok(seq![("html_text"@, quoted_of(h@))]),
            None => match p.text {
                Some(x) => Ok(seq![("text"@, quoted_of(x@))]),
                None => Err("text or html_text is required for comment update"@),
            },
        },
        UpdateResourceType::StatusUpdate => {
            let e = push_opt(Seq::empty(), "title"@, qs(p.title));
            let e = push_opt(e, "text"@, qs(p.text));
            let e = push_opt(e, "html_text"@, qs(p.html_notes));
            let e = push_opt(e, "status_type"@, qs(p.status_type));
            if e.len() == 0 {
                Err("at least one of title, text, html_notes, or status_type is required"@)
            } else {
                Ok(e)
            }
        },
        UpdateResourceType::ProjectBrief => {
            let e = push_opt(Seq::empty(), "title"@, qs(p.title));
            let e = push_opt(e, "text"@, qs(p.text));
            let e = push_opt(e, "html_text"@, qs(p.html_text));
            if e.len() == 0 {
                Err("at least one of title, text, or html_text is required for project_brief update"@)
            } else {
                Ok(e)
            }
        },
    }
}

/// The collection and failure context of an update.
pub open spec fn update_target(t: UpdateResourceType) -> (Seq<char>, Seq<char>) {
    match t {
        UpdateResourceType::Task => ("/tasks/"@, "Failed to update task"@),
        UpdateResourceType::Project => ("/projects/"@, "Failed to update project"@),
        UpdateResourceType::Portfolio => ("/portfolios/"@, "Failed to update portfolio"@),
        UpdateResourceType::Section => ("/sections/"@, "Failed to update section"@),
        UpdateResourceType::Tag => ("/tags/"@, "Failed to update tag"@),
        UpdateResourceType::Comment => ("/stories/"@, "Failed to update comment"@),
        UpdateResourceType::StatusUpdate => ("/status_updates/"@, "Failed to update status update"@),
        UpdateResourceType::ProjectBrief => ("/project_briefs/"@, "Failed to update project brief"@),
    }
}

/// The request of an update, or the error text of its input.
pub open spec fn update_call_of(p: UpdateParams) -> Result<WriteCallV, Seq<char>> {
    match update_data(p) {
        Err(m) => Err(m),
        Ok(data) => Ok(WriteCallV {
            path: update_target(p.resource_type).0 + p.gid@,
            data,
            context: update_target(p.resource_type).1,
            copy_options: None,
        }),
    }
}

pub(crate) fn push_raw(d: &mut Vec<(String, String)>, k: &str, v: &Option<String>)
    ensures
        entries_view(final(d)@) == push_opt(entries_view(old(d)@), k@, opt_view(*v)),
{
    match v {
        Some(x) => {
            let ghost before = entries_view(d@);
            d.push((String::from_str(k), x.clone()));
            assert(entries_view(d@) =~= before.push((k@, x@)));
        },
        None => {},
    }
}

fn list_text(v: &Option<Vec<String>>) -> (r: Option<String>)
    ensures
        opt_view(r) == qlist(*v),
{
    match v {
        Some(x) => Some(array_of(x)),
        None => None,
    }
}

fn pair_text(gid: &String, value: &String) -> (r: String)
    ensures
        r@ == object_text(seq![("gid"@, quoted_of(gid@)), ("value"@, quoted_of(value@))]),
{
    let mut e: Vec<(String, String)> = Vec::new();
    e.push((String::from_str("gid"), quote(gid.as_str())));
    e.push((String::from_str("value"), quote(value.as_str())));
    assert(entries_view(e@) =~= seq![("gid"@, quoted_of(gid@)), ("value"@, quoted_of(value@))]);
    entries_text(&e)
}

fn pairs_of(v: &Vec<(String, String)>) -> (r: String)
    ensures
        r@ == pairs_text(entries_view(v@)),
{
    let mut items: Vec<String> = Vec::new();
    let mut i: usize = 0;
    while i < v.len()
        invariant
            i <= v.len(),
            items@.len() == i,
            forall|j: int| 0 <= j < i ==> (#[trigger] items@[j])@ == object_text(
                seq![("gid"@, quoted_of(v@[j].0@)), ("value"@, quoted_of(v@[j].1@))],
            ),
        decreases v.len() - i,
    {
        items.push(pair_text(&v[i].0, &v[i].1));
        i = i + 1;
    }
    let mut s = join2("[", join(&items).as_str());
    s.append("]");
    assert(strings_view(items@) =~= entries_view(v@).map_values(
        |p: (Seq<char>, Seq<char>)| object_text(seq![("gid"@, quoted_of(p.0)), ("value"@, quoted_of(p.1))]),
    ));
    s
}

fn push_dates(d: &mut Vec<(String, String)>, v: &Option<Vec<DateVariableParam>>)
    ensures
        entries_view(final(d)@) == push_opt(entries_view(old(d)@), "requested_dates"@, dates_text(*v)),
{
    match v {
        Some(x) => {
            let mut pairs: Vec<(String, String)> = Vec::new();
            let mut i: usize = 0;
            while i < x.len()
                invariant
                    i <= x.len(),
                    entries_view(pairs@) == x@.take(i as int).map_values(|p: DateVariableParam| (p.gid@, p.value@)),
                decreases x.len() - i,
            {
                let ghost before = entries_view(pairs@);
                pairs.push((x[i].gid.clone(), x[i].value.clone()));
                assert(entries_view(pairs@) =~= before.push((x@[i as int].gid@, x@[i as int].value@)));
                assert(x@.take(i + 1).map_values(|p: DateVariableParam| (p.gid@, p.value@)) =~= x@.take(i as int).map_values(|p: DateVariableParam| (p.gid@, p.value@)).push((x@[i as int].gid@, x@[i as int].value@)));
                i = i + 1;
            }
            assert(x@.take(x.len() as int) =~= x@);
            let ghost before = entries_view(d@);
            let t = pairs_of(&pairs);
            d.push((String::from_str("requested_dates"), t));
            assert(entries_view(d@) =~= before.push(("requested_dates"@, dates_text(*v).unwrap())));
        },
        None => {},
    }
}

fn push_roles(d: &mut Vec<(String, String)>, v: &Option<Vec<RoleAssignmentParam>>)
    ensures
        entries_view(final(d)@) == push_opt(entries_view(old(d)@), "requested_roles"@, roles_text(*v)),
{
    match v {
        Some(x) => {
            let mut pairs: Vec<(String, String)> = Vec::new();
            let mut i: usize = 0;
            while i < x.len()
                invariant
                    i <= x.len(),
                    entries_view(pairs@) == x@.take(i as int).map_values(|p: RoleAssignmentParam| (p.gid@, p.value@)),
                decreases x.len() - i,
            {
                let ghost before = entries_view(pairs@);
                pairs.push((x[i].gid.clone(), x[i].value.clone()));
                assert(entries_view(pairs@) =~= before.push((x@[i as int].gid@, x@[i as int].value@)));
                assert(x@.take(i + 1).map_values(|p: RoleAssignmentParam| (p.gid@, p.value@)) =~= x@.take(i as int).map_values(|p: RoleAssignmentParam| (p.gid@, p.value@)).push((x@[i as int].gid@, x@[i as int].value@)));
                i = i + 1;
            }
            assert(x@.take(x.len() as int) =~= x@);
            let ghost before = entries_view(d@);
            let t = pairs_of(&pairs);
            d.push((String::from_str("requested_roles"), t));
            assert(entries_view(d@) =~= before.push(("requested_roles"@, roles_text(*v).unwrap())));
        },
        None => {},
    }
}

fn need(o: &Option<String>, message: &str) -> (r: Result<String, ToolError>)
    ensures
        match r {
            Ok(s) => required(*o, message@) == Ok::<Seq<char>, Seq<char>>(s@),
            Err(e) => required(*o, message@) == Err::<Seq<char>, Seq<char>>(e.message@),
        },
{
    match o {
        Some(s) => Ok(s.clone()),
        None => Err(validation_error(message)),
    }
}

fn name_entry(name: &String) -> (r: Vec<(String, String)>)
    ensures
        entries_view(r@) == named(name@),
{
    let mut d: Vec<(String, String)> = Vec::new();
    d.push((String::from_str("name"), quote(name.as_str())));
    assert(entries_view(d@) =~= named(name@));
    d
}

fn call(path: String, data: Vec<(String, String)>, context: &str) -> (r: WriteCall)
    ensures
        r.path == path,
        r.data == data,
        r.context@ == context@,
        r.copy_options is None,
{
    WriteCall { path, data, context: String::from_str(context), copy_options: None }
}

fn path3(a: &str, b: &String, c: &str) -> (r: String)
    ensures
        r@ == a@ + b@ + c@,
{
    let mut s = join2(a, b.as_str());
    s.append(c);
    s
}

fn push_one(d: &mut Vec<(String, String)>, k: &str, v: &String)
    ensures
        entries_view(final(d)@) == entries_view(old(d)@).push((k@, quoted_of(v@))),
{
    let ghost before = entries_view(d@);
    d.push((String::from_str(k), quote(v.as_str())));
    assert(entries_view(d@) =~= before.push((k@, quoted_of(v@))));
}

/// Works out the request of a creation, as `create_call_of` says.
pub fn create_call(p: &CreateParams, default: &Option<String>) -> (r: Result<WriteCall, ToolError>)
    ensures
        match r {
            Ok(c) => create_call_of(*p, *default) == Ok::<WriteCallV, Seq<char>>(c@),
            Err(e) => create_call_of(*p, *default) == Err::<WriteCallV, Seq<char>>(e.message@),
        },
{
    match p.resource_type {
        CreateResourceType::Task => {
            let mut d: Vec<(String, String)> = Vec::new();
            assert(entries_view(d@) =~= Seq::<(Seq<char>, Seq<char>)>::empty());
            push_quoted(&mut d, "name", &p.name);
            push_quoted(&mut d, "workspace", &p.workspace_gid);
            match &p.project_gid {
                Some(g) => {
                    let mut one: Vec<String> = Vec::new();
                    one.push(g.clone());
                    assert(strings_view(one@) =~= seq![g@]);
                    let ghost before = entries_view(d@);
                    d.push((String::from_str("projects"), array_of(&one)));
                    assert(entries_view(d@) =~= before.push(("projects"@, array_text(seq![g@]))));
                },
                None => {},
            }
            push_quoted(&mut d, "assignee", &p.assignee);
            push_quoted(&mut d, "due_on", &p.due_on);
            push_quoted(&mut d, "start_on", &p.start_on);
            push_quoted(&mut d, "notes", &p.notes);
            push_quoted(&mut d, "html_notes", &p.html_notes);
            push_raw(&mut d, "custom_fields", &p.custom_fields);
            Ok(call(String::from_str("/tasks"), d, "Failed to create task"))
        },
        CreateResourceType::Subtask => {
            let t = need(&p.task_gid, "task_gid is required for subtask")?;
            let mut d: Vec<(String, String)> = Vec::new();
            assert(entries_view(d@) =~= Seq::<(Seq<char>, Seq<char>)>::empty());
            push_quoted(&mut d, "name", &p.name);
            push_quoted(&mut d, "assignee", &p.assignee);
            push_quoted(&mut d, "due_on", &p.due_on);
            push_quoted(&mut d, "start_on", &p.start_on);
            push_quoted(&mut d, "notes", &p.notes);
            push_quoted(&mut d, "html_notes", &p.html_notes);
            push_raw(&mut d, "custom_fields", &p.custom_fields);
            Ok(call(path3("/tasks/", &t, "/subtasks"), d, "Failed to create subtask"))
        },
        CreateResourceType::Project => {
            let n = need(&p.name, "name is required for project")?;
            let mut d = name_entry(&n);
            push_quoted(&mut d, "workspace", &p.workspace_gid);
            push_quoted(&mut d, "team", &p.team_gid);
            push_quoted(&mut d, "color", &p.color);
            push_quoted(&mut d, "notes", &p.notes);
            push_quoted(&mut d, "html_notes", &p.html_notes);
            push_quoted(&mut d, "due_on", &p.due_on);
            push_quoted(&mut d, "start_on", &p.start_on);
            push_quoted(&mut d, "privacy_setting", &p.privacy_setting);
            Ok(call(String::from_str("/projects"), d, "Failed to create project"))
        },
        CreateResourceType::ProjectFromTemplate => {
            let t = need(&p.template_gid, "template_gid is required")?;
            let n = need(&p.name, "name is required")?;
            let mut d = name_entry(&n);
            push_quoted(&mut d, "team", &p.team_gid);
            push_bool(&mut d, "public", p.public);
            push_dates(&mut d, &p.requested_dates);
            push_roles(&mut d, &p.requested_roles);
            Ok(call(path3("/project_templates/", &t, "/instantiateProject"), d, "Failed to instantiate project from template"))
        },
        CreateResourceType::Portfolio => {
            let ws = resolve_workspace_gid(&p.workspace_gid, default)?;
            let n = need(&p.name, "name is required for portfolio")?;
            let mut d = name_entry(&n);
            push_one(&mut d, "workspace", &ws);
            push_quoted(&mut d, "color", &p.color);
            push_bool(&mut d, "public", p.public);
            Ok(call(String::from_str("/portfolios"), d, "Failed to create portfolio"))
        },
        CreateResourceType::Section => {
            let g = need(&p.project_gid, "project_gid is required for section")?;
            let n = need(&p.name, "name is required for section")?;
            Ok(call(path3("/projects/", &g, "/sections"), name_entry(&n), "Failed to create section"))
        },
        CreateResourceType::Comment => {
            let t = need(&p.task_gid, "task_gid is required for comment")?;
            let mut d: Vec<(String, String)> = Vec::new();
            assert(entries_view(d@) =~= Seq::<(Seq<char>, Seq<char>)>::empty());
            match &p.html_text {
                Some(h) => push_one(&mut d, "html_text", h),
                None => match &p.text {
                    Some(x) => push_one(&mut d, "text", x),
                    None => match &p.notes {
                        Some(x) => push_one(&mut d, "text", x),
                        None => return Err(validation_error("text, html_text, or notes is required for comment")),
                    },
                },
            }
            Ok(call(path3("/tasks/", &t, "/stories"), d, "Failed to create comment"))
        },
        CreateResourceType::StatusUpdate => {
            let g = need(&p.parent_gid, "parent_gid is required for status update")?;
            let s = need(&p.status_type, "status_type is required for status update")?;
            let mut d: Vec<(String, String)> = Vec::new();
            assert(entries_view(d@) =~= Seq::<(Seq<char>, Seq<char>)>::empty());
            push_one(&mut d, "parent", &g);
            push_one(&mut d, "status_type", &s);
            assert(entries_view(d@) =~= seq![("parent"@, quoted_of(g@)), ("status_type"@, quoted_of(s@))]);
            push_quoted(&mut d, "title", &p.title);
            push_quoted(&mut d, "text", &p.text);
            Ok(call(String::from_str("/status_updates"), d, "Failed to create status update"))
        },
        CreateResourceType::Tag => {
            let ws = resolve_workspace_gid(&p.workspace_gid, default)?;
            let n = need(&p.name, "name is required for tag")?;
            let mut d = name_entry(&n);
            push_one(&mut d, "workspace", &ws);
            push_quoted(&mut d, "color", &p.color);
            push_quoted(&mut d, "notes", &p.notes);
            Ok(call(String::from_str("/tags"), d, "Failed to create tag"))
        },
        CreateResourceType::ProjectDuplicate => {
            let s = need(&p.source_gid, "source_gid is required for project_duplicate")?;
            let n = need(&p.name, "name is required for project_duplicate")?;
            let mut d = name_entry(&n);
            push_quoted(&mut d, "team", &p.team_gid);
            let mut c = call(path3("/projects/", &s, "/duplicate"), d, "Failed to duplicate project");
            c.copy_options = list_text(&p.copy_options);
            Ok(c)
        },
        CreateResourceType::TaskDuplicate => {
            let s = need(&p.source_gid, "source_gid is required for task_duplicate")?;
            let n = need(&p.name, "name is required for task_duplicate")?;
            let mut c = call(path3("/tasks/", &s, "/duplicate"), name_entry(&n), "Failed to duplicate task");
            c.copy_options = list_text(&p.copy_options);
            Ok(c)
        },
        CreateResourceType::ProjectBrief => {
            let g = need(&p.project_gid, "project_gid is required for project_brief")?;
            let mut d: Vec<(String, String)> = Vec::new();
            assert(entries_view(d@) =~= Seq::<(Seq<char>, Seq<char>)>::empty());
            push_quoted(&mut d, "text", &p.text);
            push_quoted(&mut d, "html_text", &p.html_text);
            if d.len() == 0 {
                return Err(validation_error("text or html_text is required for project_brief"));
            }
            Ok(call(path3("/projects/", &g, "/project_briefs"), d, "Failed to create project brief"))
        },
    }
}

fn target(t: UpdateResourceType) -> (r: (&'static str, &'static str))
    ensures
        (r.0@, r.1@) == update_target(t),
{
    match t {
        UpdateResourceType::Task => ("/tasks/", "Failed to update task"),
        UpdateResourceType::Project => ("/projects/", "Failed to update project"),
        UpdateResourceType::Portfolio => ("/portfolios/", "Failed to update portfolio"),
        UpdateResourceType::Section => ("/sections/", "Failed to update section"),
        UpdateResourceType::Tag => ("/tags/", "Failed to update tag"),
        UpdateResourceType::Comment => ("/stories/", "Failed to update comment"),
        UpdateResourceType::StatusUpdate => ("/status_updates/", "Failed to update status update"),
        UpdateResourceType::ProjectBrief => ("/project_briefs/", "Failed to update project brief"),
    }
}

fn update_members(p: &UpdateParams) -> (r: Result<Vec<(String, String)>, ToolError>)
    ensures
        match r {
            Ok(d) => update_data(*p) == Ok::<EntriesV, Seq<char>>(entries_view(d@)),
            Err(e) => update_data(*p) == Err::<EntriesV, Seq<char>>(e.message@),
        },
{
    let mut d: Vec<(String, String)> = Vec::new();
    assert(entries_view(d@) =~= Seq::<(Seq<char>, Seq<char>)>::empty());
    match p.resource_type {
        UpdateResourceType::Task => {
            push_quoted(&mut d, "name", &p.name);
            push_quoted(&mut d, "assignee", &p.assignee);
            push_quoted(&mut d, "due_on", &p.due_on);
            push_quoted(&mut d, "start_on", &p.start_on);
            push_quoted(&mut d, "notes", &p.notes);
            push_quoted(&mut d, "html_notes", &p.html_notes);
            push_bool(&mut d, "completed", p.completed);
            push_raw(&mut d, "custom_fields", &p.custom_fields);
        },
        UpdateResourceType::Project => {
            push_quoted(&mut d, "name", &p.name);
            push_quoted(&mut d, "color", &p.color);
            push_quoted(&mut d, "notes", &p.notes);
            push_quoted(&mut d, "html_notes", &p.html_notes);
            push_quoted(&mut d, "due_on", &p.due_on);
            push_quoted(&mut d, "start_on", &p.start_on);
            push_bool(&mut d, "archived", p.archived);
            push_quoted(&mut d, "privacy_setting", &p.privacy_setting);
            push_raw(&mut d, "custom_fields", &p.custom_fields);
        },
        UpdateResourceType::Portfolio => {
            push_quoted(&mut d, "name", &p.name);
            push_quoted(&mut d, "color", &p.color);
            push_bool(&mut d, "public", p.public);
        },
        UpdateResourceType::Section => {
            let n = need(&p.name, "name is required for section update")?;
            return Ok(name_entry(&n));
        },
        UpdateResourceType::Tag => {
            push_quoted(&mut d, "name", &p.name);
            push_quoted(&mut d, "color", &p.color);
            push_quoted(&mut d, "notes", &p.notes);
        },
        UpdateResourceType::Comment => match &p.html_text {
            Some(h) => push_one(&mut d, "html_text", h),
            None => match &p.text {
                Some(x) => push_one(&mut d, "text", x),
                None => return Err(validation_error("text or html_text is required for comment update")),
            },
        },
        UpdateResourceType::StatusUpdate => {
            push_quoted(&mut d, "title", &p.title);
            push_quoted(&mut d, "text", &p.text);
            push_quoted(&mut d, "html_text", &p.html_notes);
            push_quoted(&mut d, "status_type", &p.status_type);
            if d.len() == 0 {
                return Err(validation_error("at least one of title, text, html_notes, or status_type is required"));
            }
        },
        UpdateResourceType::ProjectBrief => {
            push_quoted(&mut d, "title", &p.title);
            push_quoted(&mut d, "text", &p.text);
            push_quoted(&mut d, "html_text", &p.html_text);
            if d.len() == 0 {
                return Err(validation_error("at least one of title, text, or html_text is required for project_brief update"));
            }
        },
    }
    Ok(d)
}

/// Works out the request of an update, as `update_call_of` says.
pub fn update_call(p: &UpdateParams) -> (r: Result<WriteCall, ToolError>)
    ensures
        match r {
            Ok(c) => update_call_of(*p) == Ok::<WriteCallV, Seq<char>>(c@),
            Err(e) => update_call_of(*p) == Err::<WriteCallV, Seq<char>>(e.message@),
        },
{
    let data = update_members(p)?;
    let (collection, context) = target(p.resource_type);
    Ok(call(join2(collection, p.gid.as_str()), data, context))
}

impl WriteCall {
    /// The JSON body of the call: `{"data": {...}}`.
    pub fn body_text(&self) -> (r: String)
        ensures
            r@ == object_text(seq![("data"@, object_text(self@.data))]),
    {
        let inner = entries_text(&self.data);
        let ghost iv = inner@;
        let mut outer: Vec<(String, String)> = Vec::new();
        outer.push((String::from_str("data"), inner));
        assert(entries_view(outer@) =~= seq![("data"@, iv)]);
        entries_text(&outer)
    }
}

} // verus!
