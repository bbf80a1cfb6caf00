//! The resource representation: a typed header (identifier, optional type tag)
//! over an open map of every other field, and the trees and lists built of it.

use vstd::prelude::*;
use crate::json::{entries_view, EntriesV};

verus! {

/// A remote resource: its identifier and type tag, and every other field it
/// came with, each value kept as its JSON text.
#[derive(Debug)]
pub struct Resource {
    pub gid: String,
    pub resource_type: Option<String>,
    pub fields: Vec<(String, String)>,
}

/// The model of a [`Resource`].
pub struct ResourceV {
    pub gid: Seq<char>,
    pub resource_type: Option<Seq<char>>,
    pub fields: EntriesV,
}

pub open spec fn opt_view(o: Option<String>) -> Option<Seq<char>> {
    match o {
        Some(s) => Some(s@),
        None => None,
    }
}

impl View for Resource {
    type V = ResourceV;

    open spec fn view(&self) -> ResourceV {
        ResourceV {
            gid: self.gid@,
            resource_type: opt_view(self.resource_type),
            fields: entries_view(self.fields@),
        }
    }
}

/// A container together with its items, expanded to some depth.
#[derive(Debug)]
pub struct PortfolioWithItems {
    pub portfolio: Resource,
    pub items: Vec<PortfolioItemExpanded>,
}

/// One item of an expanded container: a leaf project, or a nested container.
#[derive(Debug)]
pub enum PortfolioItemExpanded {
    Project(Box<Resource>),
    Portfolio(Box<PortfolioWithItems>),
}

/// The model of an expanded container.
pub struct NodeV {
    pub resource: ResourceV,
    pub children: Seq<ChildV>,
}

/// The model of an expanded item.
pub enum ChildV {
    Leaf(ResourceV),
    Nested(NodeV),
}

pub open spec fn node_view(n: PortfolioWithItems) -> NodeV
    decreases n,
{
    NodeV { resource: n.portfolio@, children: children_view(n.items@) }
}

pub open spec fn children_view(s: Seq<PortfolioItemExpanded>) -> Seq<ChildV>
    decreases s,
{
    if s.len() == 0 {
        Seq::empty()
    } else {
        children_view(s.subrange(0, s.len() - 1)).push(child_view(s[s.len() - 1]))
    }
}

pub open spec fn child_view(c: PortfolioItemExpanded) -> ChildV
    decreases c,
{
    match c {
        PortfolioItemExpanded::Project(r) => ChildV::Leaf((*r)@),
        PortfolioItemExpanded::Portfolio(n) => ChildV::Nested(node_view(*n)),
    }
}

} // verus!
