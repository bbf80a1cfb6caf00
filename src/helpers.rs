//! Small rules shared by the operations: depth encodings, required
//! identifiers, field lists, and the failures reported to a caller.

use vstd::prelude::*;
use vstd::string::StringExecFns;
use crate::error::{join2, Error, ErrorV};
use crate::params::{DetailLevel, GetParams, LinkParams, SearchParams};

verus! {

/// The fields of the minimal detail level.
pub const MINIMAL_FIELDS: &'static str = "gid,name,resource_type";

/// The class of a failure reported to a caller.
#[derive(Clone, Copy, Debug, PartialEq, Eq, Structural)]
pub enum ErrorCode {
    /// The caller's input or configuration is at fault.
    InvalidParams,
    /// The remote service or the transport failed.
    InternalError,
}

/// A failure reported to a caller: its class and a message.
#[derive(Debug)]
pub struct ToolError {
    pub code: ErrorCode,
    pub message: String,
}

/// A depth parameter as a limit: negative is unlimited (`None`), otherwise
/// that many levels.
pub open spec fn depth_limit(depth: i32) -> Option<usize> {
    if depth < 0 {
        None
    } else {
        Some(depth as usize)
    }
}

/// Converts a depth parameter to a limit, as `depth_limit` says.
pub fn depth_to_option(depth: i32) -> (r: Option<usize>)
    ensures
        r == depth_limit(depth),
{
    if depth < 0 {
        None
    } else {
        Some(depth as usize)
    }
}

/// A failure of the caller's input, with the given message.
pub fn validation_error(message: &str) -> (r: ToolError)
    ensures
        r.code == ErrorCode::InvalidParams,
        r.message@ == message@,
{
    ToolError { code: ErrorCode::InvalidParams, message: String::from_str(message) }
}

/// Requires a non-empty identifier.
pub fn require_gid(gid: &Option<String>, resource_type: &str) -> (r: Result<String, ToolError>)
    ensures
        match r {
            Ok(g) => gid.is_some() && gid.unwrap()@.len() > 0 && g@ == gid.unwrap()@,
            Err(e) => (gid.is_none() || gid.unwrap()@.len() == 0) && e.code == ErrorCode::InvalidParams
                && e.message@ == "gid is required for "@ + resource_type@,
        },
{
    match gid {
        Some(g) => if !g.as_str().is_empty() {
            return Ok(g.clone());
        },
        None => {},
    }
    let m = join2("gid is required for ", resource_type);
    Err(ToolError { code: ErrorCode::InvalidParams, message: m })
}

/// The workspace of an operation: the one given where it is non-empty, else
/// the configured default; the error text where there is neither.
pub open spec fn workspace_of(provided: Option<String>, default: Option<String>) -> Result<Seq<char>, Seq<char>> {
    if provided.is_some() && provided.unwrap()@.len() > 0 {
        Ok(provided.unwrap()@)
    } else {
        match default {
            Some(d) => Ok(d@),
            None => Err("workspace_gid is required (or set ASANA_DEFAULT_WORKSPACE env var)"@),
        }
    }
}

/// Resolves the workspace of an operation, as `workspace_of` says.
pub fn resolve_workspace_gid(provided: &Option<String>, default: &Option<String>) -> (r: Result<String, ToolError>)
    ensures
        match r {
            Ok(g) => workspace_of(*provided, *default) == Ok::<Seq<char>, Seq<char>>(g@),
            Err(e) => e.code == ErrorCode::InvalidParams && workspace_of(*provided, *default) == Err::<
                Seq<char>,
                Seq<char>,
            >(e.message@),
        },
{
    match provided {
        Some(g) => if !g.as_str().is_empty() {
            return Ok(g.clone());
        },
        None => {},
    }
    match default {
        Some(d) => Ok(d.clone()),
        None => Err(validation_error("workspace_gid is required (or set ASANA_DEFAULT_WORKSPACE env var)")),
    }
}

/// The text of an error reported to a caller, prefixed by the operation's context.
pub open spec fn context_text(context: Seq<char>, e: ErrorV) -> Seq<char> {
    context + ": "@ + match e {
        ErrorV::NotFound(s) => s,
        ErrorV::MissingToken => "ASANA_TOKEN environment variable not set"@,
        ErrorV::InvalidToken => "invalid token format"@,
        ErrorV::Api(s) => s,
        ErrorV::Http(s) => "HTTP error - "@ + s,
        ErrorV::Parse(s) => "failed to parse response - "@ + s,
        ErrorV::Cyclic(s) => "container graph is cyclic at "@ + s,
    }
}

/// The class of a failure: the caller's for not-found and token errors, the
/// service's otherwise.
pub open spec fn code_of(e: ErrorV) -> ErrorCode {
    match e {
        ErrorV::NotFound(_) | ErrorV::MissingToken | ErrorV::InvalidToken => ErrorCode::InvalidParams,
        _ => ErrorCode::InternalError,
    }
}

/// Reports an error of an operation to the caller.
pub fn error_to_mcp(context: &str, error: Error) -> (r: ToolError)
    ensures
        r.code == code_of(error@),
        r.message@ == context_text(context@, error@),
{
    let mut m = join2(context, ": ");
    match &error {
        Error::NotFound(s) => m.append(s.as_str()),
        Error::MissingToken => m.append("ASANA_TOKEN environment variable not set"),
        Error::InvalidToken => m.append("invalid token format"),
        Error::Api { message } => m.append(message.as_str()),
        Error::Http(s) => {
            m.append("HTTP error - ");
            m.append(s.as_str());
        },
        Error::Parse(s) => {
            m.append("failed to parse response - ");
            m.append(s.as_str());
        },
        Error::Cyclic(s) => {
            m.append("container graph is cyclic at ");
            m.append(s.as_str());
        },
    }
    let code = match &error {
        Error::NotFound(_) | Error::MissingToken | Error::InvalidToken => ErrorCode::InvalidParams,
        _ => ErrorCode::InternalError,
    };
    ToolError { code, message: m }
}

/// The strings of `s` joined by commas.
pub open spec fn join_commas(s: Seq<Seq<char>>) -> Seq<char>
    decreases s.len(),
{
    if s.len() == 0 {
        Seq::empty()
    } else if s.len() == 1 {
        s[0]
    } else {
        join_commas(s.take(s.len() - 1)) + ","@ + s.last()
    }
}

pub open spec fn strings_view(v: Seq<String>) -> Seq<Seq<char>> {
    v.map_values(|s: String| s@)
}

/// Joins strings with commas, as `join_commas` says.
pub fn join(v: &Vec<String>) -> (r: String)
    ensures
        r@ == join_commas(strings_view(v@)),
{
    let mut s = String::new();
    let mut i: usize = 0;
    while i < v.len()
        invariant
            i <= v.len(),
            s@ == join_commas(strings_view(v@.take(i as int))),
        decreases v.len() - i,
    {
        let ghost t = strings_view(v@.take(i + 1));
        assert(t.take(i as int) =~= strings_view(v@.take(i as int)));
        if i > 0 {
            s.append(",");
        }
        s.append(v[i].as_str());
        if i == 0 {
            assert(s@ =~= join_commas(t));
        }
        i = i + 1;
    }
    assert(v@.take(v.len() as int) =~= v@);
    s
}

/// The field list of a fetch: `opt_fields` where given and non-empty; else
/// the base of the detail level, with `extra_fields` appended where given and
/// non-empty.
pub open spec fn fields_spec(
    level: DetailLevel,
    extra: Option<Seq<Seq<char>>>,
    opt: Option<Seq<Seq<char>>>,
    default_fields: Seq<char>,
) -> Seq<char> {
    if opt is Some && opt.unwrap().len() > 0 {
        join_commas(opt.unwrap())
    } else {
        let base = match level {
            DetailLevel::Minimal => MINIMAL_FIELDS@,
            DetailLevel::Default => default_fields,
        };
        if extra is Some && extra.unwrap().len() > 0 {
            base + ","@ + join_commas(extra.unwrap())
        } else {
            base
        }
    }
}

pub open spec fn opt_strings_view(o: Option<Vec<String>>) -> Option<Seq<Seq<char>>> {
    match o {
        Some(v) => Some(strings_view(v@)),
        None => None,
    }
}

/// Resolves the field list of a fetch, as `fields_spec` says.
pub fn resolve_fields_with_level(
    detail_level: DetailLevel,
    extra_fields: &Option<Vec<String>>,
    opt_fields: &Option<Vec<String>>,
    default_fields: &str,
) -> (r: String)
    ensures
        r@ == fields_spec(
            detail_level,
            opt_strings_view(*extra_fields),
            opt_strings_view(*opt_fields),
            default_fields@,
        ),
{
    match opt_fields {
        Some(f) => if f.len() > 0 {
            return join(f);
        },
        None => {},
    }
    let mut base = match detail_level {
        DetailLevel::Minimal => String::from_str(MINIMAL_FIELDS),
        DetailLevel::Default => String::from_str(default_fields),
    };
    match extra_fields {
        Some(e) => if e.len() > 0 {
            base.append(",");
            base.append(join(e).as_str());
        },
        None => {},
    }
    base
}

/// Resolves the field list of a fetch from its parameters.
pub fn resolve_fields_from_get_params(params: &GetParams, default_fields: &str) -> (r: String)
    ensures
        r@ == fields_spec(
            params.detail_level,
            opt_strings_view(params.extra_fields),
            opt_strings_view(params.opt_fields),
            default_fields@,
        ),
{
    resolve_fields_with_level(params.detail_level, &params.extra_fields, &params.opt_fields, default_fields)
}

/// Resolves the field list of a task search from its parameters.
pub fn resolve_fields_from_task_search_params(params: &SearchParams, default_fields: &str) -> (r: String)
    ensures
        r@ == fields_spec(
            params.detail_level,
            opt_strings_view(params.extra_fields),
            opt_strings_view(params.opt_fields),
            default_fields@,
        ),
{
    resolve_fields_with_level(params.detail_level, &params.extra_fields, &params.opt_fields, default_fields)
}

/// The items of a relationship change: `item_gids` where given (it must not
/// be empty), else `item_gid` alone; the error text where neither serves.
pub open spec fn item_gids_of(p: LinkParams) -> Result<Seq<Seq<char>>, Seq<char>> {
    match p.item_gids {
        Some(g) => if g@.len() == 0 {
            Err("item_gids cannot be empty"@)
        } else {
            Ok(strings_view(g@))
        },
        None => match p.item_gid {
            Some(x) => Ok(seq![x@]),
            None => Err("item_gid or item_gids is required"@),
        },
    }
}

/// Reads the items of a relationship change, as `item_gids_of` says.
pub fn get_item_gids(p: &LinkParams) -> (r: Result<Vec<String>, ToolError>)
    ensures
        match r {
            Ok(v) => item_gids_of(*p) == Ok::<Seq<Seq<char>>, Seq<char>>(strings_view(v@)),
            Err(e) => e.code == ErrorCode::InvalidParams && item_gids_of(*p) == Err::<
                Seq<Seq<char>>,
                Seq<char>,
            >(e.message@),
        },
{
    match &p.item_gids {
        Some(gids) => {
            if gids.len() == 0 {
                return Err(validation_error("item_gids cannot be empty"));
            }
            let mut out: Vec<String> = Vec::new();
            let mut i: usize = 0;
            while i < gids.len()
                invariant
                    i <= gids.len(),
                    strings_view(out@) == strings_view(gids@.take(i as int)),
                decreases gids.len() - i,
            {
                let ghost o = out@;
                out.push(gids[i].clone());
                assert(strings_view(out@) =~= strings_view(o).push(gids@[i as int]@));
                assert(strings_view(gids@.take(i + 1)) =~= strings_view(gids@.take(i as int)).push(gids@[i as int]@));
                i = i + 1;
            }
            assert(gids@.take(gids.len() as int) =~= gids@);
            Ok(out)
        },
        None => match &p.item_gid {
            Some(g) => {
                let mut out: Vec<String> = Vec::new();
                out.push(g.clone());
                assert(strings_view(out@) =~= seq![g@]);
                Ok(out)
            },
            None => Err(validation_error("item_gid or item_gids is required")),
        },
    }
}

} // verus!
