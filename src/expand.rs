//! The depth-bounded tree expander: a container with its items, leaf projects
//! fetched in full and nested containers expanded in turn, down to a depth
//! the caller chooses.

use vstd::prelude::*;
use vstd::string::StringExecFns;
use crate::error::{Error, ErrorV};
use crate::json::str_eq;
use crate::refs::{refs_from_resources, refs_of, PortfolioItem, RefV};
use crate::store::{
    reply_for, shape_error, shape_failure, Reply, ReplyV, Request, RequestV, Step, StepV, Store,
    StoreV,
};
use crate::types::{
    child_view, children_view, node_view, ChildV, NodeV, PortfolioItemExpanded, PortfolioWithItems,
};

verus! {

/// A depth limit as a natural number; `None` is unlimited.
pub open spec fn opt_nat(m: Option<usize>) -> Option<nat> {
    match m {
        Some(x) => Some(x as nat),
        None => None,
    }
}

/// The depth gate: whether a container at `depth` has its items expanded.
pub open spec fn gate(max: Option<nat>, depth: nat) -> bool {
    match max {
        None => true,
        Some(m) => depth < m,
    }
}

/// The error of an item list whose entries are not all references.
pub open spec fn refs_error() -> ErrorV {
    ErrorV::Parse("invalid item reference"@)
}

/// The expansion of container `id` at `depth`. Nested containers may go
/// `fuel` levels deeper; past that the graph must revisit a container.
pub open spec fn expand_spec(
    st: StoreV,
    id: Seq<char>,
    max: Option<nat>,
    depth: nat,
    fuel: nat,
) -> StepV<Result<NodeV, ErrorV>>
    decreases fuel, 2nat, 0nat,
{
    match reply_for(st, RequestV::PortfolioDetail(id)) {
        None => StepV::Need(RequestV::PortfolioDetail(id)),
        Some(ReplyV::Failed(e)) => StepV::Done(Err(e)),
        Some(ReplyV::Many(_)) => StepV::Done(Err(shape_error())),
        Some(ReplyV::One(p)) => if !gate(max, depth) {
            StepV::Done(Ok(NodeV { resource: p, children: Seq::empty() }))
        } else {
            match reply_for(st, RequestV::PortfolioItems(id)) {
                None => StepV::Need(RequestV::PortfolioItems(id)),
                Some(ReplyV::Failed(e)) => StepV::Done(Err(e)),
                Some(ReplyV::One(_)) => StepV::Done(Err(shape_error())),
                Some(ReplyV::Many(rs)) => match refs_of(rs) {
                    None => StepV::Done(Err(refs_error())),
                    Some(refs) => match items_spec(st, refs, max, depth, fuel, refs.len()) {
                        StepV::Need(q) => StepV::Need(q),
                        StepV::Done(Err(e)) => StepV::Done(Err(e)),
                        StepV::Done(Ok(c)) => StepV::Done(Ok(NodeV { resource: p, children: c })),
                    },
                },
            }
        },
    }
}

/// The expanded children of the first `n` item references, in order; the
/// first request needed or the first failure ends the walk.
pub open spec fn items_spec(
    st: StoreV,
    refs: Seq<RefV>,
    max: Option<nat>,
    depth: nat,
    fuel: nat,
    n: nat,
) -> StepV<Result<Seq<ChildV>, ErrorV>>
    decreases fuel, 1nat, n,
{
    if n == 0 {
        StepV::Done(Ok(Seq::empty()))
    } else {
        match items_spec(st, refs, max, depth, fuel, (n - 1) as nat) {
            StepV::Done(Ok(acc)) => match item_spec(st, refs[n - 1], max, depth, fuel) {
                StepV::Need(q) => StepV::Need(q),
                StepV::Done(Err(e)) => StepV::Done(Err(e)),
                StepV::Done(Ok(None)) => StepV::Done(Ok(acc)),
                StepV::Done(Ok(Some(c))) => StepV::Done(Ok(acc.push(c))),
            },
            other => other,
        }
    }
}

/// One item reference: a project is fetched as a leaf, a container expanded
/// one level deeper, and any other tag skipped.
pub open spec fn item_spec(
    st: StoreV,
    r: RefV,
    max: Option<nat>,
    depth: nat,
    fuel: nat,
) -> StepV<Result<Option<ChildV>, ErrorV>>
    decreases fuel, 0nat, 0nat,
{
    if r.resource_type == "project"@ {
        match reply_for(st, RequestV::ProjectDetail(r.gid)) {
            None => StepV::Need(RequestV::ProjectDetail(r.gid)),
            Some(ReplyV::Failed(e)) => StepV::Done(Err(e)),
            Some(ReplyV::Many(_)) => StepV::Done(Err(shape_error())),
            Some(ReplyV::One(p)) => StepV::Done(Ok(Some(ChildV::Leaf(p)))),
        }
    } else if r.resource_type == "portfolio"@ {
        if fuel == 0 {
            StepV::Done(Err(ErrorV::Cyclic(r.gid)))
        } else {
            match expand_spec(st, r.gid, max, depth + 1, (fuel - 1) as nat) {
                StepV::Need(q) => StepV::Need(q),
                StepV::Done(Err(e)) => StepV::Done(Err(e)),
                StepV::Done(Ok(n)) => StepV::Done(Ok(Some(ChildV::Nested(n)))),
            }
        }
    } else {
        StepV::Done(Ok(None))
    }
}

/// The expansion of container `id` to `max` levels over the store `st`.
pub open spec fn expand(st: StoreV, id: Seq<char>, max: Option<nat>) -> StepV<Result<NodeV, ErrorV>> {
    expand_spec(st, id, max, 0, st.len())
}

pub open spec fn node_step_view(s: Step<Result<PortfolioWithItems, Error>>) -> StepV<Result<NodeV, ErrorV>> {
    match s {
        Step::Need(q) => StepV::Need(q@),
        Step::Done(Ok(n)) => StepV::Done(Ok(node_view(n))),
        Step::Done(Err(e)) => StepV::Done(Err(e@)),
    }
}

pub open spec fn item_step_view(
    s: Step<Result<Option<PortfolioItemExpanded>, Error>>,
) -> StepV<Result<Option<ChildV>, ErrorV>> {
    match s {
        Step::Need(q) => StepV::Need(q@),
        Step::Done(Ok(Some(c))) => StepV::Done(Ok(Some(child_view(c)))),
        Step::Done(Ok(None)) => StepV::Done(Ok(None)),
        Step::Done(Err(e)) => StepV::Done(Err(e@)),
    }
}

/// Once the walk over the items has stopped, taking more items changes nothing.
proof fn lemma_items_stopped(
    st: StoreV,
    refs: Seq<RefV>,
    max: Option<nat>,
    depth: nat,
    fuel: nat,
    n: nat,
    m: nat,
)
    requires
        n <= m,
        !(items_spec(st, refs, max, depth, fuel, n) matches StepV::Done(Ok(_))),
    ensures
        items_spec(st, refs, max, depth, fuel, m) == items_spec(st, refs, max, depth, fuel, n),
    decreases m,
{
    if m > n {
        lemma_items_stopped(st, refs, max, depth, fuel, n, (m - 1) as nat);
    }
}

fn expand_item(
    store: &Store,
    r: &PortfolioItem,
    max: Option<usize>,
    depth: usize,
    fuel: usize,
) -> (out: Step<Result<Option<PortfolioItemExpanded>, Error>>)
    requires
        depth + fuel <= usize::MAX,
    ensures
        item_step_view(out) == item_spec(store@, r@, opt_nat(max), depth as nat, fuel as nat),
    decreases fuel, 0nat, 0nat,
{
    if str_eq(r.resource_type.as_str(), "project") {
        match store.reply(&Request::ProjectDetail(r.gid.clone())) {
            None => Step::Need(Request::ProjectDetail(r.gid.clone())),
            Some(Reply::Failed(e)) => Step::Done(Err(e.copy())),
            Some(Reply::Many(_)) => Step::Done(Err(shape_failure())),
            Some(Reply::One(p)) => Step::Done(Ok(Some(PortfolioItemExpanded::Project(Box::new(p.copy()))))),
        }
    } else if str_eq(r.resource_type.as_str(), "portfolio") {
        if fuel == 0 {
            Step::Done(Err(Error::Cyclic(r.gid.clone())))
        } else {
            match fetch_portfolio_with_depth(store, &r.gid, max, depth + 1, fuel - 1) {
                Step::Need(q) => Step::Need(q),
                Step::Done(Err(e)) => Step::Done(Err(e)),
                Step::Done(Ok(n)) => Step::Done(Ok(Some(PortfolioItemExpanded::Portfolio(Box::new(n))))),
            }
        }
    } else {
        Step::Done(Ok(None))
    }
}

/// Expands container `gid` at `depth`, as `expand_spec` says.
pub fn fetch_portfolio_with_depth(
    store: &Store,
    gid: &String,
    max: Option<usize>,
    depth: usize,
    fuel: usize,
) -> (out: Step<Result<PortfolioWithItems, Error>>)
    requires
        depth + fuel <= usize::MAX,
    ensures
        node_step_view(out) == expand_spec(store@, gid@, opt_nat(max), depth as nat, fuel as nat),
    decreases fuel, 2nat, 0nat,
{
    let portfolio = match store.reply(&Request::PortfolioDetail(gid.clone())) {
        None => return Step::Need(Request::PortfolioDetail(gid.clone())),
        Some(Reply::Failed(e)) => return Step::Done(Err(e.copy())),
        Some(Reply::Many(_)) => return Step::Done(Err(shape_failure())),
        Some(Reply::One(p)) => p.copy(),
    };
    let open = match max {
        None => true,
        Some(m) => depth < m,
    };
    if !open {
        let items: Vec<PortfolioItemExpanded> = Vec::new();
        assert(children_view(items@) =~= Seq::<ChildV>::empty());
        return Step::Done(Ok(PortfolioWithItems { portfolio, items }));
    }
    let rs = match store.reply(&Request::PortfolioItems(gid.clone())) {
        None => return Step::Need(Request::PortfolioItems(gid.clone())),
        Some(Reply::Failed(e)) => return Step::Done(Err(e.copy())),
        Some(Reply::One(_)) => return Step::Done(Err(shape_failure())),
        Some(Reply::Many(rs)) => rs,
    };
    let refs = match refs_from_resources(rs) {
        Some(v) => v,
        None => return Step::Done(Err(Error::Parse(String::from_str("invalid item reference")))),
    };
    let ghost rv = refs@.map_values(|x: PortfolioItem| x@);
    let ghost mx = opt_nat(max);
    let ghost rsv = rs@.map_values(|r: crate::types::Resource| r@);
    let mut items: Vec<PortfolioItemExpanded> = Vec::new();
    assert(children_view(items@) =~= Seq::<ChildV>::empty());
    let mut i: usize = 0;
    while i < refs.len()
        invariant
            i <= refs.len(),
            depth + fuel <= usize::MAX,
            rv == refs@.map_values(|x: PortfolioItem| x@),
            rv.len() == refs.len(),
            mx == opt_nat(max),
            reply_for(store@, RequestV::PortfolioDetail(gid@)) == Some(ReplyV::One(portfolio@)),
            gate(mx, depth as nat),
            reply_for(store@, RequestV::PortfolioItems(gid@)) == Some(ReplyV::Many(rsv)),
            refs_of(rsv) == Some(rv),
            items_spec(store@, rv, mx, depth as nat, fuel as nat, i as nat) == StepV::Done(
                Ok::<Seq<ChildV>, ErrorV>(children_view(items@)),
            ),
        decreases refs.len() - i,
    {
        let ghost before = items@;
        let r = &refs[i];
        let step = expand_item(store, r, max, depth, fuel);
        assert(rv[i as int] == r@);
        match step {
            Step::Need(q) => {
                proof { lemma_items_stopped(store@, rv, mx, depth as nat, fuel as nat, (i + 1) as nat, rv.len()); }
                return Step::Need(q);
            },
            Step::Done(Err(e)) => {
                proof { lemma_items_stopped(store@, rv, mx, depth as nat, fuel as nat, (i + 1) as nat, rv.len()); }
                return Step::Done(Err(e));
            },
            Step::Done(Ok(None)) => {},
            Step::Done(Ok(Some(c))) => {
                items.push(c);
                assert(items@.subrange(0, items@.len() - 1) =~= before);
            },
        }
        i = i + 1;
    }
    Step::Done(Ok(PortfolioWithItems { portfolio, items }))
}

/// Expands container `gid` to `max_depth` levels (`None`: no limit), or names
/// the request it needs first.
pub fn get_portfolio_recursive(
    store: &Store,
    gid: &String,
    max_depth: Option<usize>,
) -> (out: Step<Result<PortfolioWithItems, Error>>)
    ensures
        node_step_view(out) == expand(store@, gid@, opt_nat(max_depth)),
{
    fetch_portfolio_with_depth(store, gid, max_depth, 0, store.len())
}

} // verus!
