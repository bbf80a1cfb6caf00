//! Relationship changes: which endpoint each (action, relationship) pair
//! calls, with what body, and what it reports.

use vstd::prelude::*;
use vstd::string::StringExecFns;
use crate::error::join2;
use crate::helpers::{get_item_gids, item_gids_of, join, join_commas, validation_error, ToolError};
use crate::json::{entries_view, quote, quoted_of, EntriesV};
use crate::params::{LinkAction, LinkParams, RelationshipType};
use crate::resource::{entries_text, object_text};
use crate::search::push_opt;
use crate::types::opt_view;

verus! {

/// The request of a relationship change.
#[derive(Debug)]
pub struct LinkCall {
    /// The path the body is posted to.
    pub path: String,
    /// The members of the body's `data` object, each value as JSON text.
    pub data: Vec<(String, String)>,
    /// Whether the response holds the changed resource (else it is empty).
    pub returns_resource: bool,
    /// The context of a failure of the call.
    pub context: String,
    /// The message of a success without a resource.
    pub success: String,
}

/// The model of a [`LinkCall`].
pub struct LinkCallV {
    pub path: Seq<char>,
    pub data: EntriesV,
    pub returns_resource: bool,
    pub context: Seq<char>,
    pub success: Seq<char>,
}

impl View for LinkCall {
    type V = LinkCallV;

    open spec fn view(&self) -> LinkCallV {
        LinkCallV {
            path: self.path@,
            data: entries_view(self.data@),
            returns_resource: self.returns_resource,
            context: self.context@,
            success: self.success@,
        }
    }
}

/// The path of a change: the target's collection, the target, the action.
pub open spec fn link_path_parts(a: LinkAction, r: RelationshipType) -> (Seq<char>, Seq<char>) {
    match (a, r) {
        (LinkAction::Add, RelationshipType::TaskProject) => ("/tasks/"@, "/addProject"@),
        (LinkAction::Remove, RelationshipType::TaskProject) => ("/tasks/"@, "/removeProject"@),
        (LinkAction::Add, RelationshipType::TaskTag) => ("/tasks/"@, "/addTag"@),
        (LinkAction::Remove, RelationshipType::TaskTag) => ("/tasks/"@, "/removeTag"@),
        (_, RelationshipType::TaskParent) => ("/tasks/"@, "/setParent"@),
        (LinkAction::Add, RelationshipType::TaskDependency) => ("/tasks/"@, "/addDependencies"@),
        (LinkAction::Remove, RelationshipType::TaskDependency) => ("/tasks/"@, "/removeDependencies"@),
        (LinkAction::Add, RelationshipType::TaskDependent) => ("/tasks/"@, "/addDependents"@),
        (LinkAction::Remove, RelationshipType::TaskDependent) => ("/tasks/"@, "/removeDependents"@),
        (LinkAction::Add, RelationshipType::TaskFollower) => ("/tasks/"@, "/addFollowers"@),
        (LinkAction::Remove, RelationshipType::TaskFollower) => ("/tasks/"@, "/removeFollowers"@),
        (LinkAction::Add, RelationshipType::PortfolioItem) => ("/portfolios/"@, "/addItem"@),
        (LinkAction::Remove, RelationshipType::PortfolioItem) => ("/portfolios/"@, "/removeItem"@),
        (LinkAction::Add, RelationshipType::PortfolioMember) => ("/portfolios/"@, "/addMembers"@),
        (LinkAction::Remove, RelationshipType::PortfolioMember) => ("/portfolios/"@, "/removeMembers"@),
        (LinkAction::Add, RelationshipType::ProjectMember) => ("/projects/"@, "/addMembers"@),
        (LinkAction::Remove, RelationshipType::ProjectMember) => ("/projects/"@, "/removeMembers"@),
        (LinkAction::Add, RelationshipType::ProjectFollower) => ("/projects/"@, "/addFollowers"@),
        (LinkAction::Remove, RelationshipType::ProjectFollower) => ("/projects/"@, "/removeFollowers"@),
    }
}

/// The context of a failed change, and the message of a successful one.
pub open spec fn link_texts(a: LinkAction, r: RelationshipType) -> (Seq<char>, Seq<char>) {
    match (a, r) {
        (LinkAction::Add, RelationshipType::TaskProject) => ("Failed to add task to project"@, "Task added to project"@),
        (LinkAction::Remove, RelationshipType::TaskProject) => ("Failed to remove task from project"@, "Task removed from project"@),
        (LinkAction::Add, RelationshipType::TaskTag) => ("Failed to add tag to task"@, "Tag added to task"@),
        (LinkAction::Remove, RelationshipType::TaskTag) => ("Failed to remove tag from task"@, "Tag removed from task"@),
        (LinkAction::Add, RelationshipType::TaskParent) => ("Failed to set task parent"@, "Task parent set"@),
        (LinkAction::Remove, RelationshipType::TaskParent) => ("Failed to remove task parent"@, "Task parent removed"@),
        (LinkAction::Add, RelationshipType::TaskDependency) => ("Failed to add dependencies"@, "Dependencies added"@),
        (LinkAction::Remove, RelationshipType::TaskDependency) => ("Failed to remove dependencies"@, "Dependencies removed"@),
        (LinkAction::Add, RelationshipType::TaskDependent) => ("Failed to add dependents"@, "Dependents added"@),
        (LinkAction::Remove, RelationshipType::TaskDependent) => ("Failed to remove dependents"@, "Dependents removed"@),
        (LinkAction::Add, RelationshipType::TaskFollower) => ("Failed to add followers"@, "Followers added"@),
        (LinkAction::Remove, RelationshipType::TaskFollower) => ("Failed to remove follower"@, "Follower removed"@),
        (LinkAction::Add, RelationshipType::PortfolioItem) => ("Failed to add item to portfolio"@, "Item added to portfolio"@),
        (LinkAction::Remove, RelationshipType::PortfolioItem) => ("Failed to remove item from portfolio"@, "Item removed from portfolio"@),
        (LinkAction::Add, RelationshipType::PortfolioMember) => ("Failed to add portfolio members"@, "Members added to portfolio"@),
        (LinkAction::Remove, RelationshipType::PortfolioMember) => ("Failed to remove portfolio members"@, "Members removed from portfolio"@),
        (LinkAction::Add, RelationshipType::ProjectMember) => ("Failed to add project members"@, "Members added to project"@),
        (LinkAction::Remove, RelationshipType::ProjectMember) => ("Failed to remove project members"@, "Members removed from project"@),
        (LinkAction::Add, RelationshipType::ProjectFollower) => ("Failed to add project followers"@, "Followers added to project"@),
        (LinkAction::Remove, RelationshipType::ProjectFollower) => ("Failed to remove project followers"@, "Followers removed from project"@),
    }
}

/// The JSON array of the strings `s`.
pub open spec fn array_text(s: Seq<Seq<char>>) -> Seq<char> {
    "["@ + join_commas(s.map_values(|x: Seq<char>| quoted_of(x))) + "]"@
}

pub open spec fn quoted_opt(o: Option<Seq<char>>) -> Option<Seq<char>> {
    match o {
        Some(s) => Some(quoted_of(s)),
        None => None,
    }
}

/// The single item a change names, or the error text where it names none.
pub open spec fn single_item(p: LinkParams, what: Seq<char>) -> Result<Seq<char>, Seq<char>> {
    match p.item_gid {
        Some(g) => Ok(g@),
        None => Err("item_gid ("@ + what + ") is required"@),
    }
}

pub open spec fn one_member(k: Seq<char>, v: Result<Seq<char>, Seq<char>>) -> Result<EntriesV, Seq<char>> {
    match v {
        Ok(x) => Ok(seq![(k, x)]),
        Err(m) => Err(m),
    }
}

/// The members of the body's `data` object, or the error text.
pub open spec fn link_data(p: LinkParams) -> Result<EntriesV, Seq<char>> {
    let quote1 = |r: Result<Seq<char>, Seq<char>>| match r {
        Ok(g) => Ok(quoted_of(g)),
        Err(m) => Err(m),
    };
    let arr = match item_gids_of(p) {
        Ok(gs) => Ok(array_text(gs)),
        Err(m) => Err(m),
    };
    let csv = match item_gids_of(p) {
        Ok(gs) => Ok(quoted_of(join_commas(gs))),
        Err(m) => Err(m),
    };
    match (p.action, p.relationship) {
        (LinkAction::Add, RelationshipType::TaskProject) => match single_item(p, "project"@) {
            Ok(g) => Ok(push_opt(seq![("project"@, quoted_of(g))], "section"@, quoted_opt(opt_view(p.section_gid)))),
            Err(m) => Err(m),
        },
        (LinkAction::Remove, RelationshipType::TaskProject) => one_member("project"@, quote1(single_item(p, "project"@))),
        (_, RelationshipType::TaskTag) => one_member("tag"@, quote1(single_item(p, "tag"@))),
        (LinkAction::Add, RelationshipType::TaskParent) => one_member("parent"@, quote1(single_item(p, "parent task"@))),
        (LinkAction::Remove, RelationshipType::TaskParent) => Ok(seq![("parent"@, "null"@)]),
        (_, RelationshipType::TaskDependency) => one_member("dependencies"@, arr),
        (_, RelationshipType::TaskDependent) => one_member("dependents"@, arr),
        (LinkAction::Add, RelationshipType::TaskFollower) => one_member("followers"@, arr),
        (LinkAction::Remove, RelationshipType::TaskFollower) => match single_item(p, "follower"@) {
            Ok(g) => Ok(seq![("followers"@, array_text(seq![g]))]),
            Err(m) => Err(m),
        },
        (LinkAction::Add, RelationshipType::PortfolioItem) => match single_item(p, "project"@) {
            Ok(g) => Ok(push_opt(
                push_opt(seq![("item"@, quoted_of(g))], "insert_before"@, quoted_opt(opt_view(p.insert_before))),
                "insert_after"@,
                quoted_opt(opt_view(p.insert_after)),
            )),
            Err(m) => Err(m),
        },
        (LinkAction::Remove, RelationshipType::PortfolioItem) => one_member("item"@, quote1(single_item(p, "project"@))),
        (_, RelationshipType::PortfolioMember) => one_member("members"@, arr),
        (_, RelationshipType::ProjectMember) => one_member("members"@, csv),
        (_, RelationshipType::ProjectFollower) => one_member("followers"@, csv),
    }
}

/// The request of a relationship change, or the error text of its input.
pub open spec fn link_call_of(p: LinkParams) -> Result<LinkCallV, Seq<char>> {
    match link_data(p) {
        Err(m) => Err(m),
        Ok(data) => Ok(LinkCallV {
            path: link_path_parts(p.action, p.relationship).0 + p.target_gid@ + link_path_parts(
                p.action,
                p.relationship,
            ).1,
            data,
            returns_resource: p.relationship == RelationshipType::TaskParent,
            context: link_texts(p.action, p.relationship).0,
            success: link_texts(p.action, p.relationship).1,
        }),
    }
}

fn path_parts(a: LinkAction, r: RelationshipType) -> (out: (&'static str, &'static str))
    ensures
        (out.0@, out.1@) == link_path_parts(a, r),
{
    match (a, r) {
        (LinkAction::Add, RelationshipType::TaskProject) => ("/tasks/", "/addProject"),
        (LinkAction::Remove, RelationshipType::TaskProject) => ("/tasks/", "/removeProject"),
        (LinkAction::Add, RelationshipType::TaskTag) => ("/tasks/", "/addTag"),
        (LinkAction::Remove, RelationshipType::TaskTag) => ("/tasks/", "/removeTag"),
        (_, RelationshipType::TaskParent) => ("/tasks/", "/setParent"),
        (LinkAction::Add, RelationshipType::TaskDependency) => ("/tasks/", "/addDependencies"),
        (LinkAction::Remove, RelationshipType::TaskDependency) => ("/tasks/", "/removeDependencies"),
        (LinkAction::Add, RelationshipType::TaskDependent) => ("/tasks/", "/addDependents"),
        (LinkAction::Remove, RelationshipType::TaskDependent) => ("/tasks/", "/removeDependents"),
        (LinkAction::Add, RelationshipType::TaskFollower) => ("/tasks/", "/addFollowers"),
        (LinkAction::Remove, RelationshipType::TaskFollower) => ("/tasks/", "/removeFollowers"),
        (LinkAction::Add, RelationshipType::PortfolioItem) => ("/portfolios/", "/addItem"),
        (LinkAction::Remove, RelationshipType::PortfolioItem) => ("/portfolios/", "/removeItem"),
        (LinkAction::Add, RelationshipType::PortfolioMember) => ("/portfolios/", "/addMembers"),
        (LinkAction::Remove, RelationshipType::PortfolioMember) => ("/portfolios/", "/removeMembers"),
        (LinkAction::Add, RelationshipType::ProjectMember) => ("/projects/", "/addMembers"),
        (LinkAction::Remove, RelationshipType::ProjectMember) => ("/projects/", "/removeMembers"),
        (LinkAction::Add, RelationshipType::ProjectFollower) => ("/projects/", "/addFollowers"),
        (LinkAction::Remove, RelationshipType::ProjectFollower) => ("/projects/", "/removeFollowers"),
    }
}

fn texts(a: LinkAction, r: RelationshipType) -> (out: (&'static str, &'static str))
    ensures
        (out.0@, out.1@) == link_texts(a, r),
{
    match (a, r) {
        (LinkAction::Add, RelationshipType::TaskProject) => ("Failed to add task to project", "Task added to project"),
        (LinkAction::Remove, RelationshipType::TaskProject) => ("Failed to remove task from project", "Task removed from project"),
        (LinkAction::Add, RelationshipType::TaskTag) => ("Failed to add tag to task", "Tag added to task"),
        (LinkAction::Remove, RelationshipType::TaskTag) => ("Failed to remove tag from task", "Tag removed from task"),
        (LinkAction::Add, RelationshipType::TaskParent) => ("Failed to set task parent", "Task parent set"),
        (LinkAction::Remove, RelationshipType::TaskParent) => ("Failed to remove task parent", "Task parent removed"),
        (LinkAction::Add, RelationshipType::TaskDependency) => ("Failed to add dependencies", "Dependencies added"),
        (LinkAction::Remove, RelationshipType::TaskDependency) => ("Failed to remove dependencies", "Dependencies removed"),
        (LinkAction::Add, RelationshipType::TaskDependent) => ("Failed to add dependents", "Dependents added"),
        (LinkAction::Remove, RelationshipType::TaskDependent) => ("Failed to remove dependents", "Dependents removed"),
        (LinkAction::Add, RelationshipType::TaskFollower) => ("Failed to add followers", "Followers added"),
        (LinkAction::Remove, RelationshipType::TaskFollower) => ("Failed to remove follower", "Follower removed"),
        (LinkAction::Add, RelationshipType::PortfolioItem) => ("Failed to add item to portfolio", "Item added to portfolio"),
        (LinkAction::Remove, RelationshipType::PortfolioItem) => ("Failed to remove item from portfolio", "Item removed from portfolio"),
        (LinkAction::Add, RelationshipType::PortfolioMember) => ("Failed to add portfolio members", "Members added to portfolio"),
        (LinkAction::Remove, RelationshipType::PortfolioMember) => ("Failed to remove portfolio members", "Members removed from portfolio"),
        (LinkAction::Add, RelationshipType::ProjectMember) => ("Failed to add project members", "Members added to project"),
        (LinkAction::Remove, RelationshipType::ProjectMember) => ("Failed to remove project members", "Members removed from project"),
        (LinkAction::Add, RelationshipType::ProjectFollower) => ("Failed to add project followers", "Followers added to project"),
        (LinkAction::Remove, RelationshipType::ProjectFollower) => ("Failed to remove project followers", "Followers removed from project"),
    }
}

/// Writes the JSON array of the strings of `v`.
pub fn array_of(v: &Vec<String>) -> (r: String)
    ensures
        r@ == array_text(v@.map_values(|s: String| s@)),
{
    let mut quoted: Vec<String> = Vec::new();
    let mut i: usize = 0;
    while i < v.len()
        invariant
            i <= v.len(),
            quoted@.len() == i,
            forall|j: int| 0 <= j < i ==> (#[trigger] quoted@[j])@ == quoted_of(v@[j]@),
        decreases v.len() - i,
    {
        quoted.push(quote(v[i].as_str()));
        i = i + 1;
    }
    let mut s = join2("[", join(&quoted).as_str());
    s.append("]");
    assert(quoted@.map_values(|s: String| s@) =~= v@.map_values(|s: String| s@).map_values(|x: Seq<char>| quoted_of(x)));
    s
}

fn item_or(p: &LinkParams, what: &str) -> (r: Result<String, ToolError>)
    ensures
        match r {
            Ok(g) => single_item(*p, what@) == Ok::<Seq<char>, Seq<char>>(g@),
            Err(e) => single_item(*p, what@) == Err::<Seq<char>, Seq<char>>(e.message@),
        },
{
    match &p.item_gid {
        Some(g) => Ok(g.clone()),
        None => {
            let mut m = join2("item_gid (", what);
            m.append(") is required");
            Err(validation_error(m.as_str()))
        },
    }
}

fn member(k: &str, v: String) -> (r: Vec<(String, String)>)
    ensures
        entries_view(r@) == seq![(k@, v@)],
{
    let mut d: Vec<(String, String)> = Vec::new();
    d.push((String::from_str(k), v));
    assert(entries_view(d@) =~= seq![(k@, v@)]);
    d
}

pub(crate) fn push_quoted(d: &mut Vec<(String, String)>, k: &str, v: &Option<String>)
    ensures
        entries_view(final(d)@) == push_opt(entries_view(old(d)@), k@, quoted_opt(opt_view(*v))),
{
    match v {
        Some(x) => {
            let ghost before = entries_view(d@);
            d.push((String::from_str(k), quote(x.as_str())));
            assert(entries_view(d@) =~= before.push((k@, quoted_of(x@))));
        },
        None => {},
    }
}

fn link_members(p: &LinkParams) -> (r: Result<Vec<(String, String)>, ToolError>)
    ensures
        match r {
            Ok(d) => link_data(*p) == Ok::<EntriesV, Seq<char>>(entries_view(d@)),
            Err(e) => link_data(*p) == Err::<EntriesV, Seq<char>>(e.message@),
        },
{
    match (p.action, p.relationship) {
        (LinkAction::Add, RelationshipType::TaskProject) => {
            let g = item_or(p, "project")?;
            let mut d = member("project", quote(g.as_str()));
            push_quoted(&mut d, "section", &p.section_gid);
            Ok(d)
        },
        (LinkAction::Remove, RelationshipType::TaskProject) => Ok(member("project", quote(item_or(p, "project")?.as_str()))),
        (_, RelationshipType::TaskTag) => Ok(member("tag", quote(item_or(p, "tag")?.as_str()))),
        (LinkAction::Add, RelationshipType::TaskParent) => Ok(member("parent", quote(item_or(p, "parent task")?.as_str()))),
        (LinkAction::Remove, RelationshipType::TaskParent) => Ok(member("parent", String::from_str("null"))),
        (_, RelationshipType::TaskDependency) => Ok(member("dependencies", array_of(&get_item_gids(p)?))),
        (_, RelationshipType::TaskDependent) => Ok(member("dependents", array_of(&get_item_gids(p)?))),
        (LinkAction::Add, RelationshipType::TaskFollower) => Ok(member("followers", array_of(&get_item_gids(p)?))),
        (LinkAction::Remove, RelationshipType::TaskFollower) => {
            let g = item_or(p, "follower")?;
            let ghost gv = g@;
            let mut one: Vec<String> = Vec::new();
            one.push(g);
            assert(one@.map_values(|s: String| s@) =~= seq![gv]);
            Ok(member("followers", array_of(&one)))
        },
        (LinkAction::Add, RelationshipType::PortfolioItem) => {
            let g = item_or(p, "project")?;
            let mut d = member("item", quote(g.as_str()));
            push_quoted(&mut d, "insert_before", &p.insert_before);
            push_quoted(&mut d, "insert_after", &p.insert_after);
            Ok(d)
        },
        (LinkAction::Remove, RelationshipType::PortfolioItem) => Ok(member("item", quote(item_or(p, "project")?.as_str()))),
        (_, RelationshipType::PortfolioMember) => Ok(member("members", array_of(&get_item_gids(p)?))),
        (_, RelationshipType::ProjectMember) => Ok(member("members", quote(join(&get_item_gids(p)?).as_str()))),
        (_, RelationshipType::ProjectFollower) => Ok(member("followers", quote(join(&get_item_gids(p)?).as_str()))),
    }
}

/// Works out the request of a relationship change, as `link_call_of` says.
pub fn link_call(p: &LinkParams) -> (r: Result<LinkCall, ToolError>)
    ensures
        match r {
            Ok(c) => link_call_of(*p) == Ok::<LinkCallV, Seq<char>>(c@),
            Err(e) => link_call_of(*p) == Err::<LinkCallV, Seq<char>>(e.message@),
        },
{
    let data = link_members(p)?;
    let (prefix, suffix) = path_parts(p.action, p.relationship);
    let mut path = join2(prefix, p.target_gid.as_str());
    path.append(suffix);
    let (context, success) = texts(p.action, p.relationship);
    let returns_resource = match p.relationship {
        RelationshipType::TaskParent => true,
        _ => false,
    };
    Ok(LinkCall {
        path,
        data,
        returns_resource,
        context: String::from_str(context),
        success: String::from_str(success),
    })
}

impl LinkCall {
    /// The JSON body of the change: `{"data": {...}}`.
    pub fn body_text(&self) -> (r: String)
        ensures
            r@ == object_text(seq![("data"@, object_text(self@.data))]),
    {
        let inner = entries_text(&self.data);
        let ghost iv = inner@;
        let outer = member("data", inner);
        assert(entries_view(outer@) == seq![("data"@, iv)]);
        entries_text(&outer)
    }
}

} // verus!
