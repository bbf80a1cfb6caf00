//! Minimal references: an identifier, a type tag and an optional name, read
//! from a listed resource before its full detail is fetched.

use vstd::prelude::*;
use crate::json::{find, lookup, opt_string_of, parse_opt_string};
use crate::resource::copy_opt;
use crate::types::{opt_view, Resource, ResourceV};

verus! {

/// A reference to an item of a container.
#[derive(Debug)]
pub struct PortfolioItem {
    pub gid: String,
    pub resource_type: String,
    pub name: Option<String>,
}

/// A reference to a favorite of the user.
#[derive(Debug)]
pub struct FavoriteItem {
    pub gid: String,
    pub resource_type: String,
    pub name: Option<String>,
}

/// The model of a reference.
pub struct RefV {
    pub gid: Seq<char>,
    pub resource_type: Seq<char>,
    pub name: Option<Seq<char>>,
}

impl View for PortfolioItem {
    type V = RefV;

    open spec fn view(&self) -> RefV {
        RefV { gid: self.gid@, resource_type: self.resource_type@, name: opt_view(self.name) }
    }
}

impl View for FavoriteItem {
    type V = RefV;

    open spec fn view(&self) -> RefV {
        RefV { gid: self.gid@, resource_type: self.resource_type@, name: opt_view(self.name) }
    }
}

/// The reference a listed resource makes: its type tag must be a string, and
/// its `name`, where present, a string or `null`.
pub open spec fn ref_of(r: ResourceV) -> Option<RefV> {
    match r.resource_type {
        None => None,
        Some(t) => match lookup(r.fields, "name"@) {
            None => Some(RefV { gid: r.gid, resource_type: t, name: None }),
            Some(n) => match opt_string_of(n) {
                None => None,
                Some(name) => Some(RefV { gid: r.gid, resource_type: t, name }),
            },
        },
    }
}

/// The references of a list, where every resource of it makes one.
pub open spec fn refs_of(rs: Seq<ResourceV>) -> Option<Seq<RefV>> {
    if forall|i: int| 0 <= i < rs.len() ==> (#[trigger] ref_of(rs[i])) is Some {
        Some(rs.map_values(|r: ResourceV| ref_of(r).unwrap()))
    } else {
        None
    }
}

impl PortfolioItem {
    /// Reads the reference that a listed resource makes.
    pub fn from_resource(r: &Resource) -> (out: Option<PortfolioItem>)
        ensures
            match out {
                Some(i) => ref_of(r@) == Some(i@),
                None => ref_of(r@) is None,
            },
    {
        let t = match &r.resource_type {
            Some(t) => t.clone(),
            None => return None,
        };
        let name = match find(&r.fields, "name") {
            None => None,
            Some(n) => match parse_opt_string(n.as_str()) {
                Some(x) => x,
                None => return None,
            },
        };
        Some(PortfolioItem { gid: r.gid.clone(), resource_type: t, name })
    }

    /// An equal reference, held apart from this one.
    pub fn copy(&self) -> (r: PortfolioItem)
        ensures
            r@ == self@,
    {
        PortfolioItem {
            gid: self.gid.clone(),
            resource_type: self.resource_type.clone(),
            name: copy_opt(&self.name),
        }
    }
}

impl FavoriteItem {
    /// The same reference, as a favorite.
    pub fn from_item(i: PortfolioItem) -> (r: FavoriteItem)
        ensures
            r@ == i@,
    {
        FavoriteItem { gid: i.gid, resource_type: i.resource_type, name: i.name }
    }
}

/// Reads the references of a list, as `refs_of` says.
pub fn refs_from_resources(rs: &Vec<Resource>) -> (out: Option<Vec<PortfolioItem>>)
    ensures
        match out {
            Some(v) => refs_of(rs@.map_values(|r: Resource| r@)) == Some(
                v@.map_values(|i: PortfolioItem| i@),
            ),
            None => refs_of(rs@.map_values(|r: Resource| r@)) is None,
        },
{
    let ghost rv = rs@.map_values(|r: Resource| r@);
    let mut out: Vec<PortfolioItem> = Vec::new();
    let mut i: usize = 0;
    while i < rs.len()
        invariant
            i <= rs.len(),
            rv == rs@.map_values(|r: Resource| r@),
            out@.len() == i,
            forall|j: int| 0 <= j < i ==> (#[trigger] ref_of(rv[j])) == Some(out@[j]@),
        decreases rs.len() - i,
    {
        match PortfolioItem::from_resource(&rs[i]) {
            Some(item) => out.push(item),
            None => {
                assert(ref_of(rv[i as int]) is None);
                return None;
            },
        }
        i = i + 1;
    }
    assert(forall|j: int| 0 <= j < rv.len() ==> (#[trigger] ref_of(rv[j])) is Some);
    assert(rv.map_values(|r: ResourceV| ref_of(r).unwrap()) =~= out@.map_values(|i: PortfolioItem| i@));
    Some(out)
}

} // verus!
