//! The queries of the two searches.

use vstd::prelude::*;
use vstd::string::StringExecFns;
use crate::envelope::{decimal, decimal_of};
use crate::helpers::{join, join_commas, opt_strings_view, strings_view};
use crate::json::{entries_view, EntriesV};
use crate::params::SearchParams;
use crate::types::opt_view;

verus! {

/// `e` with `(k, v)` appended where `v` is given.
pub open spec fn push_opt(e: EntriesV, k: Seq<char>, v: Option<Seq<char>>) -> EntriesV {
    match v {
        Some(x) => e.push((k, x)),
        None => e,
    }
}

pub open spec fn joined(v: Option<Seq<Seq<char>>>) -> Option<Seq<char>> {
    match v {
        Some(s) => Some(join_commas(s)),
        None => None,
    }
}

pub open spec fn bool_text(b: bool) -> Seq<char> {
    if b { "true"@ } else { "false"@ }
}

pub open spec fn opt_bool_text(b: Option<bool>) -> Option<Seq<char>> {
    match b {
        Some(x) => Some(bool_text(x)),
        None => None,
    }
}

/// The query of a task search: the field list first, then each filter that
/// is given, in a fixed order; lists are joined by commas.
pub open spec fn search_query_of(p: SearchParams, fields: Seq<char>) -> EntriesV {
    let e = seq![("opt_fields"@, fields)];
    let e = push_opt(e, "text"@, opt_view(p.text));
    let e = push_opt(e, "assignee.any"@, opt_view(p.assignee));
    let e = push_opt(e, "projects.any"@, joined(opt_strings_view(p.projects)));
    let e = push_opt(e, "tags.any"@, joined(opt_strings_view(p.tags)));
    let e = push_opt(e, "sections.any"@, joined(opt_strings_view(p.sections)));
    let e = push_opt(e, "completed"@, opt_bool_text(p.completed));
    let e = push_opt(e, "due_on"@, opt_view(p.due_on));
    let e = push_opt(e, "due_on.before"@, opt_view(p.due_on_before));
    let e = push_opt(e, "due_on.after"@, opt_view(p.due_on_after));
    let e = push_opt(e, "start_on"@, opt_view(p.start_on));
    let e = push_opt(e, "start_on.before"@, opt_view(p.start_on_before));
    let e = push_opt(e, "start_on.after"@, opt_view(p.start_on_after));
    let e = push_opt(e, "modified_at.after"@, opt_view(p.modified_at_after));
    let e = push_opt(e, "modified_at.before"@, opt_view(p.modified_at_before));
    let e = push_opt(e, "portfolios.any"@, joined(opt_strings_view(p.portfolios)));
    let e = push_opt(e, "sort_by"@, opt_view(p.sort_by));
    push_opt(e, "sort_ascending"@, opt_bool_text(p.sort_ascending))
}

pub(crate) fn push_str(q: &mut Vec<(String, String)>, k: &str, v: &Option<String>)
    ensures
        entries_view(final(q)@) == push_opt(entries_view(old(q)@), k@, opt_view(*v)),
{
    match v {
        Some(x) => {
            let ghost before = entries_view(q@);
            q.push((String::from_str(k), x.clone()));
            assert(entries_view(q@) =~= before.push((k@, x@)));
        },
        None => {},
    }
}

fn push_list(q: &mut Vec<(String, String)>, k: &str, v: &Option<Vec<String>>)
    ensures
        entries_view(final(q)@) == push_opt(entries_view(old(q)@), k@, joined(opt_strings_view(*v))),
{
    match v {
        Some(x) => {
            let ghost before = entries_view(q@);
            q.push((String::from_str(k), join(x)));
            assert(entries_view(q@) =~= before.push((k@, join_commas(strings_view(x@)))));
        },
        None => {},
    }
}

pub(crate) fn push_bool(q: &mut Vec<(String, String)>, k: &str, v: Option<bool>)
    ensures
        entries_view(final(q)@) == push_opt(entries_view(old(q)@), k@, opt_bool_text(v)),
{
    match v {
        Some(b) => {
            let ghost before = entries_view(q@);
            let t = if b { String::from_str("true") } else { String::from_str("false") };
            q.push((String::from_str(k), t));
            assert(entries_view(q@) =~= before.push((k@, bool_text(b))));
        },
        None => {},
    }
}

/// Builds the query of a task search with the resolved field list.
pub fn task_search_query(p: &SearchParams, fields: String) -> (r: Vec<(String, String)>)
    ensures
        entries_view(r@) == search_query_of(*p, fields@),
{
    let mut q: Vec<(String, String)> = Vec::new();
    let ghost f = fields@;
    q.push((String::from_str("opt_fields"), fields));
    assert(entries_view(q@) =~= seq![("opt_fields"@, f)]);
    push_str(&mut q, "text", &p.text);
    push_str(&mut q, "assignee.any", &p.assignee);
    push_list(&mut q, "projects.any", &p.projects);
    push_list(&mut q, "tags.any", &p.tags);
    push_list(&mut q, "sections.any", &p.sections);
    push_bool(&mut q, "completed", p.completed);
    push_str(&mut q, "due_on", &p.due_on);
    push_str(&mut q, "due_on.before", &p.due_on_before);
    push_str(&mut q, "due_on.after", &p.due_on_after);
    push_str(&mut q, "start_on", &p.start_on);
    push_str(&mut q, "start_on.before", &p.start_on_before);
    push_str(&mut q, "start_on.after", &p.start_on_after);
    push_str(&mut q, "modified_at.after", &p.modified_at_after);
    push_str(&mut q, "modified_at.before", &p.modified_at_before);
    push_list(&mut q, "portfolios.any", &p.portfolios);
    push_str(&mut q, "sort_by", &p.sort_by);
    push_bool(&mut q, "sort_ascending", p.sort_ascending);
    q
}

/// The result count of a resource search: 20 unless given, and at most 100.
pub open spec fn search_count(count: Option<u16>) -> u16 {
    match count {
        None => 20,
        Some(c) => if c > 100 { 100 } else { c },
    }
}

/// The count parameter of a resource search, as text.
pub fn resource_search_count(count: Option<u16>) -> (r: String)
    ensures
        r@ == decimal_of(search_count(count) as nat),
{
    let c: u16 = match count {
        None => 20,
        Some(c) => if c > 100 { 100 } else { c },
    };
    decimal(c)
}

} // verus!
