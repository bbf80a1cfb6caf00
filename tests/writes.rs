use asanamcp::params::{CreateParams, UpdateParams};
use asanamcp::write::{create_call, update_call};
use asanamcp::{CreateResourceType, DateVariableParam, UpdateResourceType};

fn create(resource_type: CreateResourceType) -> CreateParams {
    CreateParams {
        resource_type,
        workspace_gid: None,
        project_gid: None,
        task_gid: None,
        team_gid: None,
        parent_gid: None,
        template_gid: None,
        requested_dates: None,
        requested_roles: None,
        name: None,
        notes: None,
        html_notes: None,
        color: None,
        due_on: None,
        start_on: None,
        assignee: None,
        privacy_setting: None,
        public: None,
        status_type: None,
        title: None,
        text: None,
        html_text: None,
        custom_fields: None,
        source_gid: None,
        copy_options: None,
        opt_fields: None,
    }
}

fn update(resource_type: UpdateResourceType, gid: &str) -> UpdateParams {
    UpdateParams {
        resource_type,
        gid: gid.to_string(),
        name: None,
        notes: None,
        html_notes: None,
        completed: None,
        due_on: None,
        start_on: None,
        assignee: None,
        color: None,
        archived: None,
        privacy_setting: None,
        public: None,
        text: None,
        html_text: None,
        title: None,
        status_type: None,
        custom_fields: None,
        opt_fields: None,
    }
}

#[test]
fn test_create_task_success() {
    let mut p = create(CreateResourceType::Task);
    p.name = Some("New Task".to_string());
    p.project_gid = Some("proj1".to_string());
    p.custom_fields = Some(r#"{"cf1":"v"}"#.to_string());
    let call = create_call(&p, &None).unwrap();
    assert_eq!(call.path, "/tasks");
    assert_eq!(
        call.body_text(),
        r#"{"data":{"name":"New Task","projects":["proj1"],"custom_fields":{"cf1":"v"}}}"#
    );
    assert_eq!(call.context, "Failed to create task");
}

#[test]
fn test_create_subtask_requires_task_gid() {
    let mut p = create(CreateResourceType::Subtask);
    p.name = Some("Subtask".to_string());
    let err = create_call(&p, &None).unwrap_err();
    assert!(err.message.contains("task_gid is required"));
}

#[test]
fn test_create_project_duplicate_requires_source_gid() {
    let mut p = create(CreateResourceType::ProjectDuplicate);
    p.name = Some("Copy".to_string());
    let err = create_call(&p, &None).unwrap_err();
    assert!(err.message.contains("source_gid is required"));
}

#[test]
fn test_create_task_duplicate_requires_source_gid() {
    let mut p = create(CreateResourceType::TaskDuplicate);
    p.name = Some("Copy".to_string());
    let err = create_call(&p, &None).unwrap_err();
    assert!(err.message.contains("source_gid is required"));
}

#[test]
fn create_duplicate_hands_back_copy_options() {
    let mut p = create(CreateResourceType::TaskDuplicate);
    p.source_gid = Some("task123".to_string());
    p.name = Some("Copy".to_string());
    p.copy_options = Some(vec!["notes".to_string(), "subtasks".to_string()]);
    let call = create_call(&p, &None).unwrap();
    assert_eq!(call.path, "/tasks/task123/duplicate");
    assert_eq!(call.copy_options, Some(r#"["notes","subtasks"]"#.to_string()));
}

#[test]
fn create_portfolio_uses_the_default_workspace() {
    let mut p = create(CreateResourceType::Portfolio);
    p.name = Some("Port".to_string());
    let err = create_call(&p, &None).unwrap_err();
    assert!(err.message.contains("workspace_gid is required"));
    let call = create_call(&p, &Some("ws1".to_string())).unwrap();
    assert_eq!(call.body_text(), r#"{"data":{"name":"Port","workspace":"ws1"}}"#);
}

#[test]
fn create_from_template_writes_requested_dates() {
    let mut p = create(CreateResourceType::ProjectFromTemplate);
    p.template_gid = Some("tmpl123".to_string());
    p.name = Some("From template".to_string());
    p.public = Some(true);
    p.requested_dates = Some(vec![DateVariableParam {
        gid: "1".to_string(),
        value: "2024-01-15".to_string(),
    }]);
    let call = create_call(&p, &None).unwrap();
    assert_eq!(call.path, "/project_templates/tmpl123/instantiateProject");
    assert_eq!(
        call.body_text(),
        r#"{"data":{"name":"From template","public":true,"requested_dates":[{"gid":"1","value":"2024-01-15"}]}}"#
    );
}

#[test]
fn create_comment_prefers_html_then_text_then_notes() {
    let mut p = create(CreateResourceType::Comment);
    p.task_gid = Some("task123".to_string());
    assert!(create_call(&p, &None).is_err());
    p.notes = Some("from notes".to_string());
    assert_eq!(create_call(&p, &None).unwrap().body_text(), r#"{"data":{"text":"from notes"}}"#);
    p.text = Some("Hello world".to_string());
    assert_eq!(create_call(&p, &None).unwrap().body_text(), r#"{"data":{"text":"Hello world"}}"#);
    p.html_text = Some("<body>Hi</body>".to_string());
    let call = create_call(&p, &None).unwrap();
    assert_eq!(call.path, "/tasks/task123/stories");
    assert_eq!(call.body_text(), r#"{"data":{"html_text":"<body>Hi</body>"}}"#);
}

#[test]
fn test_create_project_brief_requires_project_gid() {
    let mut p = create(CreateResourceType::ProjectBrief);
    p.text = Some("Some content".to_string());
    assert!(create_call(&p, &None).is_err());
}

#[test]
fn test_update_section_requires_name() {
    let err = update_call(&update(UpdateResourceType::Section, "section123")).unwrap_err();
    assert!(err.message.contains("name is required"));
}

#[test]
fn test_update_task_success() {
    let mut p = update(UpdateResourceType::Task, "task123");
    p.name = Some("Updated".to_string());
    p.completed = Some(true);
    let call = update_call(&p).unwrap();
    assert_eq!(call.path, "/tasks/task123");
    assert_eq!(call.body_text(), r#"{"data":{"name":"Updated","completed":true}}"#);
    assert_eq!(call.context, "Failed to update task");
}

#[test]
fn update_status_needs_some_field() {
    let p = update(UpdateResourceType::StatusUpdate, "status123");
    assert!(update_call(&p).unwrap_err().message.contains("at least one of"));
}
