//! The field lists requested for each resource kind.

use vstd::prelude::*;

verus! {

pub const PROJECT_FIELDS: &'static str = "gid,name,color,archived,public,owner,owner.name,team,team.name,workspace,workspace.name,current_status_update,current_status_update.gid,current_status_update.status_type,current_status_update.title,current_status_update.text,notes,created_at,modified_at,due_date,due_on,start_on,permalink_url,icon";

pub const PORTFOLIO_FIELDS: &'static str = "gid,name,color,owner,owner.name,workspace,current_status_update,current_status_update.gid,current_status_update.status_type,current_status_update.title,current_status_update.text,created_at,created_by,permalink_url,public";

/// Enough of an item to decide how to expand it.
pub const PORTFOLIO_ITEMS_FIELDS: &'static str = "gid,resource_type,name";

pub const RECURSIVE_TASK_FIELDS: &'static str = "gid,name,resource_type,completed,completed_at,assignee,assignee.name,due_on,due_at,start_on,notes,created_at,modified_at,permalink_url,parent,parent.name,num_likes,num_subtasks,liked,projects,projects.name,workspace,tags,memberships,memberships.project,memberships.project.name,memberships.section,memberships.section.name";

pub const SUBTASK_FIELDS: &'static str = "gid,name,completed,assignee,assignee.name,due_on,num_subtasks";

pub const WORKSPACE_FIELDS: &'static str = "gid,name,is_organization";

pub const USER_FIELDS: &'static str = "gid,name,email,photo,workspaces,workspaces.name";

pub const SEARCH_FIELDS: &'static str = "gid,name,completed,assignee,assignee.name,due_on,start_on,projects,projects.name,tags,tags.name,permalink_url";

pub const TASK_FULL_FIELDS: &'static str = "gid,name,resource_type,completed,completed_at,completed_by,completed_by.name,assignee,assignee.name,assignee.email,due_on,due_at,start_on,start_at,notes,html_notes,created_at,created_by,created_by.name,modified_at,permalink_url,parent,parent.name,num_likes,num_subtasks,liked,projects,projects.name,workspace,workspace.name,tags,tags.name,memberships,memberships.project,memberships.project.name,memberships.section,memberships.section.name,assignee_section,assignee_section.name";

pub const STORY_FIELDS: &'static str = "gid,created_at,created_by,created_by.name,resource_subtype,text,html_text,is_pinned,is_edited,num_likes,liked";

pub const STATUS_UPDATE_FIELDS: &'static str = "gid,title,text,html_text,status_type,created_at,created_by,created_by.name,modified_at,parent,parent.name";

pub const TEMPLATE_FIELDS: &'static str = "gid,name,description,html_description,owner,owner.name,team,team.name,public,requested_dates,requested_dates.gid,requested_dates.name,requested_dates.description,requested_roles,requested_roles.gid,requested_roles.name,color";

pub const SECTION_FIELDS: &'static str = "gid,name,project,project.name,created_at";

pub const TAG_FIELDS: &'static str = "gid,name,color,notes,workspace,workspace.name,created_at,permalink_url";

pub const TEAM_FIELDS: &'static str = "gid,name,description,html_description,organization,permalink_url";

pub const CUSTOM_FIELD_SETTINGS_FIELDS: &'static str = "gid,custom_field,custom_field.gid,custom_field.name,custom_field.type,custom_field.enum_options,custom_field.enum_options.gid,custom_field.enum_options.name,custom_field.enum_options.color,custom_field.precision,custom_field.currency_code,is_important,project";

/// The brief shown as key resources on a project's overview.
pub const PROJECT_BRIEF_FIELDS: &'static str = "gid,title,text,html_text,permalink_url,project,project.name";

} // verus!
