//! The tolerant batch resolver: every favorite reference resolved to its full
//! detail, a failure of one recorded beside the others rather than ending the
//! batch.

use vstd::prelude::*;
use crate::error::{error_text, Error, ErrorV};
use crate::expand::{expand_spec, fetch_portfolio_with_depth, opt_nat, refs_error};
use crate::refs::{refs_from_resources, refs_of, FavoriteItem, PortfolioItem, RefV};
use crate::store::{
    reply_for, resources_view, shape_error, shape_failure, Reply, ReplyV, Request, RequestV, Step,
    StepV, Store, StoreV,
};
use crate::types::{node_view, NodeV, PortfolioWithItems, Resource, ResourceV};
use vstd::string::StringExecFns;

verus! {

/// A favorite that could not be resolved, with the text of its failure.
#[derive(Debug)]
pub struct FavoriteError {
    pub item: FavoriteItem,
    pub error: String,
}

/// The favorites of a workspace: resolved projects, resolved containers, and
/// failures, each in the order of the references.
#[derive(Debug)]
pub struct FavoritesResponse {
    pub projects: Vec<Resource>,
    pub portfolios: Vec<PortfolioWithItems>,
    pub errors: Vec<FavoriteError>,
}

/// The model of a batch's outcome.
pub struct FavoritesV {
    pub projects: Seq<ResourceV>,
    pub portfolios: Seq<NodeV>,
    pub errors: Seq<(RefV, Seq<char>)>,
}

pub open spec fn errors_view(v: Seq<FavoriteError>) -> Seq<(RefV, Seq<char>)> {
    v.map_values(|e: FavoriteError| (e.item@, e.error@))
}

pub open spec fn nodes_view(v: Seq<PortfolioWithItems>) -> Seq<NodeV> {
    v.map_values(|n: PortfolioWithItems| node_view(n))
}

impl View for FavoritesResponse {
    type V = FavoritesV;

    open spec fn view(&self) -> FavoritesV {
        FavoritesV {
            projects: resources_view(self.projects@),
            portfolios: nodes_view(self.portfolios@),
            errors: errors_view(self.errors@),
        }
    }
}

/// The first `n` project references resolved: successes and failures, each
/// in order.
pub open spec fn fav_projects_spec(
    st: StoreV,
    refs: Seq<RefV>,
    n: nat,
) -> StepV<(Seq<ResourceV>, Seq<(RefV, Seq<char>)>)>
    decreases n,
{
    if n == 0 {
        StepV::Done((Seq::empty(), Seq::empty()))
    } else {
        match fav_projects_spec(st, refs, (n - 1) as nat) {
            StepV::Need(q) => StepV::Need(q),
            StepV::Done((ps, es)) => {
                let r = refs[n - 1];
                match reply_for(st, RequestV::ProjectDetail(r.gid)) {
                    None => StepV::Need(RequestV::ProjectDetail(r.gid)),
                    Some(ReplyV::One(p)) => StepV::Done((ps.push(p), es)),
                    Some(ReplyV::Failed(e)) => StepV::Done((ps, es.push((r, error_text(e))))),
                    Some(ReplyV::Many(_)) => StepV::Done((ps, es.push((r, error_text(shape_error()))))),
                }
            },
        }
    }
}

/// The first `n` container references expanded to `max` levels: successes
/// and failures, each in order.
pub open spec fn fav_portfolios_spec(
    st: StoreV,
    refs: Seq<RefV>,
    max: Option<nat>,
    fuel: nat,
    n: nat,
) -> StepV<(Seq<NodeV>, Seq<(RefV, Seq<char>)>)>
    decreases n,
{
    if n == 0 {
        StepV::Done((Seq::empty(), Seq::empty()))
    } else {
        match fav_portfolios_spec(st, refs, max, fuel, (n - 1) as nat) {
            StepV::Need(q) => StepV::Need(q),
            StepV::Done((ns, es)) => {
                let r = refs[n - 1];
                match expand_spec(st, r.gid, max, 0, fuel) {
                    StepV::Need(q) => StepV::Need(q),
                    StepV::Done(Ok(node)) => StepV::Done((ns.push(node), es)),
                    StepV::Done(Err(e)) => StepV::Done((ns, es.push((r, error_text(e))))),
                }
            },
        }
    }
}

/// The favorites of workspace `ws`. The two reference lists must be fetched;
/// the detail of each reference may fail on its own.
pub open spec fn favorites_spec(st: StoreV, ws: Seq<char>, max: Option<nat>) -> StepV<Result<FavoritesV, ErrorV>> {
    match reply_for(st, RequestV::FavoriteProjects(ws)) {
        None => StepV::Need(RequestV::FavoriteProjects(ws)),
        Some(ReplyV::Failed(e)) => StepV::Done(Err(e)),
        Some(ReplyV::One(_)) => StepV::Done(Err(shape_error())),
        Some(ReplyV::Many(prs)) => match refs_of(prs) {
            None => StepV::Done(Err(refs_error())),
            Some(prefs) => match fav_projects_spec(st, prefs, prefs.len()) {
                StepV::Need(q) => StepV::Need(q),
                StepV::Done((projects, errs1)) => match reply_for(st, RequestV::FavoritePortfolios(ws)) {
                    None => StepV::Need(RequestV::FavoritePortfolios(ws)),
                    Some(ReplyV::Failed(e)) => StepV::Done(Err(e)),
                    Some(ReplyV::One(_)) => StepV::Done(Err(shape_error())),
                    Some(ReplyV::Many(pos)) => match refs_of(pos) {
                        None => StepV::Done(Err(refs_error())),
                        Some(orefs) => match fav_portfolios_spec(st, orefs, max, st.len(), orefs.len()) {
                            StepV::Need(q) => StepV::Need(q),
                            StepV::Done((portfolios, errs2)) => StepV::Done(
                                Ok(FavoritesV { projects, portfolios, errors: errs1 + errs2 }),
                            ),
                        },
                    },
                },
            },
        },
    }
}

pub open spec fn fav_step_view(s: Step<Result<FavoritesResponse, Error>>) -> StepV<Result<FavoritesV, ErrorV>> {
    match s {
        Step::Need(q) => StepV::Need(q@),
        Step::Done(Ok(f)) => StepV::Done(Ok(f@)),
        Step::Done(Err(e)) => StepV::Done(Err(e@)),
    }
}

proof fn lemma_projects_need(st: StoreV, refs: Seq<RefV>, n: nat, m: nat)
    requires
        n <= m,
        fav_projects_spec(st, refs, n) is Need,
    ensures
        fav_projects_spec(st, refs, m) == fav_projects_spec(st, refs, n),
    decreases m,
{
    if m > n {
        lemma_projects_need(st, refs, n, (m - 1) as nat);
    }
}

proof fn lemma_portfolios_need(st: StoreV, refs: Seq<RefV>, max: Option<nat>, fuel: nat, n: nat, m: nat)
    requires
        n <= m,
        fav_portfolios_spec(st, refs, max, fuel, n) is Need,
    ensures
        fav_portfolios_spec(st, refs, max, fuel, m) == fav_portfolios_spec(st, refs, max, fuel, n),
    decreases m,
{
    if m > n {
        lemma_portfolios_need(st, refs, max, fuel, n, (m - 1) as nat);
    }
}

fn reference_failure() -> (r: Error)
    ensures
        r@ == refs_error(),
{
    Error::Parse(String::from_str("invalid item reference"))
}

/// Resolves the favorites of workspace `workspace_gid`, containers expanded
/// to `max_depth` levels (`None`: no limit), or names the request it needs
/// first.
pub fn resolve_favorites(
    store: &Store,
    workspace_gid: &String,
    max_depth: Option<usize>,
) -> (out: Step<Result<FavoritesResponse, Error>>)
    ensures
        fav_step_view(out) == favorites_spec(store@, workspace_gid@, opt_nat(max_depth)),
{
    let prs = match store.reply(&Request::FavoriteProjects(workspace_gid.clone())) {
        None => return Step::Need(Request::FavoriteProjects(workspace_gid.clone())),
        Some(Reply::Failed(e)) => return Step::Done(Err(e.copy())),
        Some(Reply::One(_)) => return Step::Done(Err(shape_failure())),
        Some(Reply::Many(v)) => v,
    };
    let prefs = match refs_from_resources(prs) {
        Some(v) => v,
        None => return Step::Done(Err(reference_failure())),
    };
    let ghost pv = prefs@.map_values(|x: PortfolioItem| x@);
    let ghost prsv = resources_view(prs@);
    let mut projects: Vec<Resource> = Vec::new();
    let mut errors: Vec<FavoriteError> = Vec::new();
    assert(resources_view(projects@) =~= Seq::<ResourceV>::empty());
    assert(errors_view(errors@) =~= Seq::<(RefV, Seq<char>)>::empty());
    let mut i: usize = 0;
    while i < prefs.len()
        invariant
            i <= prefs.len(),
            pv == prefs@.map_values(|x: PortfolioItem| x@),
            reply_for(store@, RequestV::FavoriteProjects(workspace_gid@)) == Some(ReplyV::Many(prsv)),
            refs_of(prsv) == Some(pv),
            fav_projects_spec(store@, pv, i as nat) == StepV::Done(
                (resources_view(projects@), errors_view(errors@)),
            ),
        decreases prefs.len() - i,
    {
        let r = &prefs[i];
        assert(pv[i as int] == r@);
        let ghost ps = resources_view(projects@);
        let ghost es = errors_view(errors@);
        match store.reply(&Request::ProjectDetail(r.gid.clone())) {
            None => {
                proof { lemma_projects_need(store@, pv, (i + 1) as nat, pv.len()); }
                return Step::Need(Request::ProjectDetail(r.gid.clone()));
            },
            Some(Reply::One(p)) => {
                projects.push(p.copy());
                assert(resources_view(projects@) =~= ps.push(p@));
            },
            Some(Reply::Failed(e)) => {
                let item = FavoriteItem::from_item(r.copy());
                errors.push(FavoriteError { item, error: e.message() });
                assert(errors_view(errors@) =~= es.push((r@, error_text(e@))));
            },
            Some(Reply::Many(_)) => {
                let item = FavoriteItem::from_item(r.copy());
                errors.push(FavoriteError { item, error: shape_failure().message() });
                assert(errors_view(errors@) =~= es.push((r@, error_text(shape_error()))));
            },
        }
        i = i + 1;
    }
    let pos = match store.reply(&Request::FavoritePortfolios(workspace_gid.clone())) {
        None => return Step::Need(Request::FavoritePortfolios(workspace_gid.clone())),
        Some(Reply::Failed(e)) => return Step::Done(Err(e.copy())),
        Some(Reply::One(_)) => return Step::Done(Err(shape_failure())),
        Some(Reply::Many(v)) => v,
    };
    let orefs = match refs_from_resources(pos) {
        Some(v) => v,
        None => return Step::Done(Err(reference_failure())),
    };
    let ghost ov = orefs@.map_values(|x: PortfolioItem| x@);
    let ghost posv = resources_view(pos@);
    let ghost psv = resources_view(projects@);
    let ghost es1 = errors_view(errors@);
    let ghost mx = opt_nat(max_depth);
    let mut portfolios: Vec<PortfolioWithItems> = Vec::new();
    let mut errors2: Vec<FavoriteError> = Vec::new();
    assert(nodes_view(portfolios@) =~= Seq::<NodeV>::empty());
    assert(errors_view(errors2@) =~= Seq::<(RefV, Seq<char>)>::empty());
    let fuel = store.len();
    let mut j: usize = 0;
    while j < orefs.len()
        invariant
            j <= orefs.len(),
            ov == orefs@.map_values(|x: PortfolioItem| x@),
            mx == opt_nat(max_depth),
            fuel == store@.len(),
            reply_for(store@, RequestV::FavoriteProjects(workspace_gid@)) == Some(ReplyV::Many(prsv)),
            refs_of(prsv) == Some(pv),
            fav_projects_spec(store@, pv, pv.len()) == StepV::Done((psv, es1)),
            psv == resources_view(projects@),
            es1 == errors_view(errors@),
            reply_for(store@, RequestV::FavoritePortfolios(workspace_gid@)) == Some(ReplyV::Many(posv)),
            refs_of(posv) == Some(ov),
            fav_portfolios_spec(store@, ov, mx, fuel as nat, j as nat) == StepV::Done(
                (nodes_view(portfolios@), errors_view(errors2@)),
            ),
        decreases orefs.len() - j,
    {
        let r = &orefs[j];
        assert(ov[j as int] == r@);
        let ghost ns = nodes_view(portfolios@);
        let ghost es = errors_view(errors2@);
        match fetch_portfolio_with_depth(store, &r.gid, max_depth, 0, fuel) {
            Step::Need(q) => {
                proof { lemma_portfolios_need(store@, ov, mx, fuel as nat, (j + 1) as nat, ov.len()); }
                return Step::Need(q);
            },
            Step::Done(Ok(n)) => {
                let ghost nv = node_view(n);
                portfolios.push(n);
                assert(nodes_view(portfolios@) =~= ns.push(nv));
            },
            Step::Done(Err(e)) => {
                let item = FavoriteItem::from_item(r.copy());
                errors2.push(FavoriteError { item, error: e.message() });
                assert(errors_view(errors2@) =~= es.push((r@, error_text(e@))));
            },
        }
        j = j + 1;
    }
    let ghost e2 = errors_view(errors2@);
    errors.append(&mut errors2);
    assert(errors_view(errors@) =~= es1 + e2);
    Step::Done(Ok(FavoritesResponse { projects, portfolios, errors }))
}

} // verus!
