//! Resource aggregation for a remote project-management service: envelope
//! decoding, pagination, and depth-bounded traversals of the remote resource
//! graph, each stated over a mathematical model and proved.
//!
//! The traversals do no I/O. Each is a function of the responses recorded so
//! far (a [`Store`]): it either returns its outcome or names the one
//! [`Request`] it needs next. A driver performs that request, records the
//! reply, and calls the traversal again.

pub mod context;
pub mod envelope;
pub mod error;
pub mod expand;
pub mod favorites;
pub mod fields;
pub mod helpers;
pub mod json;
pub mod laws;
pub mod link;
pub mod pager;
pub mod params;
pub mod refs;
pub mod requests;
pub mod resource;
pub mod search;
pub mod store;
pub mod tasks;
pub mod types;
pub mod write;

pub use context::{get_task_with_context, TaskWithContext};
pub use envelope::{error_from_response, extract_error_message, DataWrapper, ListWrapper, NextPage};
pub use error::Error;
pub use expand::get_portfolio_recursive;
pub use favorites::{resolve_favorites, FavoriteError, FavoritesResponse};
pub use helpers::{
    depth_to_option, error_to_mcp, get_item_gids, require_gid, resolve_fields_from_get_params,
    resolve_fields_from_task_search_params, resolve_fields_with_level, validation_error, ErrorCode,
    ToolError, MINIMAL_FIELDS,
};
pub use pager::Pager;
pub use params::{
    CreateParams, CreateResourceType, DateVariableParam, DetailLevel, GetParams, LinkAction,
    LinkParams, RelationshipType, ResourceType, RoleAssignmentParam, SearchParams, UpdateParams,
    UpdateResourceType, WorkspacesParams,
};
pub use refs::{FavoriteItem, PortfolioItem};
pub use requests::{decode_items, decode_page, decode_single, list_reply, single_reply};
pub use store::{Reply, Request, Step, Store};
pub use tasks::get_tasks_recursive;
pub use types::{PortfolioItemExpanded, PortfolioWithItems, Resource};
