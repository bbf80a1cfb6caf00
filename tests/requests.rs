use asanamcp::fields::SEARCH_FIELDS;
use asanamcp::link::link_call;
use asanamcp::search::{resource_search_count, task_search_query};
use asanamcp::tasks::{comments_of, is_comment};
use asanamcp::{
    resolve_fields_from_task_search_params, DetailLevel, LinkAction, LinkParams, RelationshipType,
    Resource, SearchParams,
};

fn link(
    action: LinkAction,
    relationship: RelationshipType,
    item_gid: Option<&str>,
    item_gids: Option<Vec<&str>>,
) -> LinkParams {
    LinkParams {
        action,
        relationship,
        target_gid: "task123".to_string(),
        item_gid: item_gid.map(|s| s.to_string()),
        item_gids: item_gids.map(|v| v.into_iter().map(|s| s.to_string()).collect()),
        section_gid: None,
        insert_before: None,
        insert_after: None,
        access_level: None,
    }
}

fn search() -> SearchParams {
    SearchParams {
        workspace_gid: Some("ws123".to_string()),
        text: None,
        assignee: None,
        projects: None,
        tags: None,
        sections: None,
        completed: None,
        due_on: None,
        due_on_before: None,
        due_on_after: None,
        start_on: None,
        start_on_before: None,
        start_on_after: None,
        modified_at_after: None,
        modified_at_before: None,
        portfolios: None,
        sort_by: None,
        sort_ascending: None,
        opt_fields: None,
        detail_level: DetailLevel::Default,
        extra_fields: None,
    }
}

#[test]
fn test_link_task_to_project() {
    let call = link_call(&link(LinkAction::Add, RelationshipType::TaskProject, Some("proj456"), None)).unwrap();
    assert_eq!(call.path, "/tasks/task123/addProject");
    assert_eq!(call.body_text(), r#"{"data":{"project":"proj456"}}"#);
    assert!(!call.returns_resource);
    assert_eq!(call.context, "Failed to add task to project");
    assert_eq!(call.success, "Task added to project");
}

#[test]
fn link_add_dependencies_sends_an_array() {
    let call = link_call(&link(
        LinkAction::Add,
        RelationshipType::TaskDependency,
        None,
        Some(vec!["dep1", "dep2"]),
    ))
    .unwrap();
    assert_eq!(call.path, "/tasks/task123/addDependencies");
    assert_eq!(call.body_text(), r#"{"data":{"dependencies":["dep1","dep2"]}}"#);
}

#[test]
fn link_project_members_are_joined() {
    let mut p = link(LinkAction::Add, RelationshipType::ProjectMember, None, Some(vec!["u1", "u2"]));
    p.target_gid = "proj123".to_string();
    let call = link_call(&p).unwrap();
    assert_eq!(call.path, "/projects/proj123/addMembers");
    assert_eq!(call.body_text(), r#"{"data":{"members":"u1,u2"}}"#);
}

#[test]
fn link_remove_parent_sends_null_and_returns_the_task() {
    let call = link_call(&link(LinkAction::Remove, RelationshipType::TaskParent, None, None)).unwrap();
    assert_eq!(call.path, "/tasks/task123/setParent");
    assert_eq!(call.body_text(), r#"{"data":{"parent":null}}"#);
    assert!(call.returns_resource);
}

#[test]
fn link_portfolio_item_with_position() {
    let mut p = link(LinkAction::Add, RelationshipType::PortfolioItem, Some("proj456"), None);
    p.target_gid = "port123".to_string();
    p.insert_after = Some("proj1".to_string());
    let call = link_call(&p).unwrap();
    assert_eq!(call.path, "/portfolios/port123/addItem");
    assert_eq!(call.body_text(), r#"{"data":{"item":"proj456","insert_after":"proj1"}}"#);
}

#[test]
fn link_requires_item_gid() {
    let err = link_call(&link(LinkAction::Add, RelationshipType::TaskTag, None, None)).unwrap_err();
    assert_eq!(err.message, "item_gid (tag) is required");
    let err = link_call(&link(LinkAction::Add, RelationshipType::TaskFollower, None, Some(vec![]))).unwrap_err();
    assert_eq!(err.message, "item_gids cannot be empty");
}

#[test]
fn task_search_query_orders_filters() {
    let mut p = search();
    p.text = Some("report".to_string());
    p.assignee = Some("me".to_string());
    p.projects = Some(vec!["p1".to_string(), "p2".to_string()]);
    p.completed = Some(false);
    p.sort_ascending = Some(true);
    let fields = resolve_fields_from_task_search_params(&p, SEARCH_FIELDS);
    let q = task_search_query(&p, fields);
    let pairs: Vec<(&str, &str)> = q.iter().map(|(k, v)| (k.as_str(), v.as_str())).collect();
    assert_eq!(
        pairs,
        vec![
            ("opt_fields", SEARCH_FIELDS),
            ("text", "report"),
            ("assignee.any", "me"),
            ("projects.any", "p1,p2"),
            ("completed", "false"),
            ("sort_ascending", "true"),
        ]
    );
}

#[test]
fn task_search_minimal_detail_level() {
    let mut p = search();
    p.detail_level = DetailLevel::Minimal;
    let fields = resolve_fields_from_task_search_params(&p, SEARCH_FIELDS);
    assert_eq!(fields, "gid,name,resource_type");
}

#[test]
fn test_resource_search_count_clamped_to_100() {
    assert_eq!(resource_search_count(None), "20");
    assert_eq!(resource_search_count(Some(500)), "100");
    assert_eq!(resource_search_count(Some(10)), "10");
    assert_eq!(resource_search_count(Some(0)), "0");
}

#[test]
fn test_story_is_comment() {
    let comment = Resource::from_json_text(r#"{"gid": "1", "resource_subtype": "comment_added", "text": "Hello"}"#).unwrap();
    let system = Resource::from_json_text(r#"{"gid": "2", "resource_subtype": "added_to_project"}"#).unwrap();
    assert!(is_comment(&comment));
    assert!(!is_comment(&system));
    let kept = comments_of(vec![system, comment]);
    assert_eq!(kept.len(), 1);
    assert_eq!(kept[0].gid, "1");
}
