//! The parameters that callers hand to each operation.

use vstd::prelude::*;

verus! {

/// Parameters for listing workspaces: there are none.
pub struct WorkspacesParams {}

/// How many fields a fetch asks for by default.
#[derive(Clone, Copy, Debug, PartialEq, Eq, Structural)]
pub enum DetailLevel {
    /// Identifier, name and type only.
    Minimal,
    /// The curated fields of the resource kind.
    Default,
}

/// The kind of resource to fetch.
#[derive(Clone, Copy, Debug, PartialEq, Eq, Structural)]
pub enum ResourceType {
    Project,
    Portfolio,
    Task,
    WorkspaceFavorites,
    ProjectTasks,
    TaskSubtasks,
    TaskComments,
    StatusUpdate,
    StatusUpdates,
    AllWorkspaces,
    Workspace,
    WorkspaceTemplates,
    ProjectTemplate,
    ProjectSections,
    Section,
    WorkspaceTags,
    Tag,
    MyTasks,
    WorkspaceProjects,
    Me,
    User,
    WorkspaceUsers,
    Team,
    WorkspaceTeams,
    TeamUsers,
    ProjectCustomFields,
    ProjectBrief,
    ProjectProjectBrief,
}

/// Parameters of the universal fetch.
pub struct GetParams {
    pub resource_type: ResourceType,
    pub gid: Option<String>,
    /// Container depth: negative is unlimited, 0 none, N levels.
    pub depth: Option<i32>,
    /// Subtask depth: negative is unlimited, 0 none (the default), N levels.
    pub subtask_depth: Option<i32>,
    pub include_subtasks: Option<bool>,
    pub include_dependencies: Option<bool>,
    pub include_comments: Option<bool>,
    pub opt_fields: Option<Vec<String>>,
    pub detail_level: DetailLevel,
    pub extra_fields: Option<Vec<String>>,
}

/// The kind of resource to create.
#[derive(Clone, Copy, Debug, PartialEq, Eq, Structural)]
pub enum CreateResourceType {
    Task,
    Subtask,
    Project,
    ProjectFromTemplate,
    Portfolio,
    Section,
    Comment,
    StatusUpdate,
    Tag,
    ProjectDuplicate,
    TaskDuplicate,
    ProjectBrief,
}

/// A date variable for instantiating a template.
pub struct DateVariableParam {
    pub gid: String,
    /// The date, as YYYY-MM-DD.
    pub value: String,
}

/// A role assignment for instantiating a template.
pub struct RoleAssignmentParam {
    pub gid: String,
    /// The user assigned to the role.
    pub value: String,
}

/// Parameters of a creation. `custom_fields` is the JSON text of an object
/// mapping custom field identifiers to their values.
pub struct CreateParams {
    pub resource_type: CreateResourceType,
    pub workspace_gid: Option<String>,
    pub project_gid: Option<String>,
    pub task_gid: Option<String>,
    pub team_gid: Option<String>,
    pub parent_gid: Option<String>,
    pub template_gid: Option<String>,
    pub requested_dates: Option<Vec<DateVariableParam>>,
    pub requested_roles: Option<Vec<RoleAssignmentParam>>,
    pub name: Option<String>,
    pub notes: Option<String>,
    pub html_notes: Option<String>,
    pub color: Option<String>,
    pub due_on: Option<String>,
    pub start_on: Option<String>,
    pub assignee: Option<String>,
    pub privacy_setting: Option<String>,
    pub public: Option<bool>,
    pub status_type: Option<String>,
    pub title: Option<String>,
    pub text: Option<String>,
    pub html_text: Option<String>,
    pub custom_fields: Option<String>,
    pub source_gid: Option<String>,
    /// What a duplicate copies from its source.
    pub copy_options: Option<Vec<String>>,
    pub opt_fields: Option<Vec<String>>,
}

/// Parameters of an update. `custom_fields` is the JSON text of an object
/// mapping custom field identifiers to their values.
pub struct UpdateParams {
    pub resource_type: UpdateResourceType,
    pub gid: String,
    pub name: Option<String>,
    pub notes: Option<String>,
    pub html_notes: Option<String>,
    pub completed: Option<bool>,
    pub due_on: Option<String>,
    pub start_on: Option<String>,
    pub assignee: Option<String>,
    pub color: Option<String>,
    pub archived: Option<bool>,
    pub privacy_setting: Option<String>,
    pub public: Option<bool>,
    pub text: Option<String>,
    pub html_text: Option<String>,
    pub title: Option<String>,
    pub status_type: Option<String>,
    pub custom_fields: Option<String>,
    pub opt_fields: Option<Vec<String>>,
}

/// Parameters of a task search.
pub struct SearchParams {
    pub workspace_gid: Option<String>,
    pub text: Option<String>,
    pub assignee: Option<String>,
    pub projects: Option<Vec<String>>,
    pub tags: Option<Vec<String>>,
    pub sections: Option<Vec<String>>,
    pub completed: Option<bool>,
    pub due_on: Option<String>,
    pub due_on_before: Option<String>,
    pub due_on_after: Option<String>,
    pub start_on: Option<String>,
    pub start_on_before: Option<String>,
    pub start_on_after: Option<String>,
    pub modified_at_after: Option<String>,
    pub modified_at_before: Option<String>,
    pub portfolios: Option<Vec<String>>,
    pub sort_by: Option<String>,
    pub sort_ascending: Option<bool>,
    pub opt_fields: Option<Vec<String>>,
    pub detail_level: DetailLevel,
    pub extra_fields: Option<Vec<String>>,
}

/// The kind of resource to update.
#[derive(Clone, Copy, Debug, PartialEq, Eq, Structural)]
pub enum UpdateResourceType {
    Task,
    Project,
    Portfolio,
    Section,
    Tag,
    Comment,
    StatusUpdate,
    ProjectBrief,
}

/// Whether a relationship is added or removed.
#[derive(Clone, Copy, Debug, PartialEq, Eq, Structural)]
pub enum LinkAction {
    Add,
    Remove,
}

/// The relationship to change.
#[derive(Clone, Copy, Debug, PartialEq, Eq, Structural)]
pub enum RelationshipType {
    TaskProject,
    TaskTag,
    TaskParent,
    TaskDependency,
    TaskDependent,
    TaskFollower,
    PortfolioItem,
    PortfolioMember,
    ProjectMember,
    ProjectFollower,
}

/// Parameters of a relationship change.
pub struct LinkParams {
    pub action: LinkAction,
    pub relationship: RelationshipType,
    pub target_gid: String,
    pub item_gid: Option<String>,
    pub item_gids: Option<Vec<String>>,
    pub section_gid: Option<String>,
    pub insert_before: Option<String>,
    pub insert_after: Option<String>,
    pub access_level: Option<String>,
}

} // verus!
