use asanamcp::{
    depth_to_option, error_to_mcp, get_item_gids, require_gid, resolve_fields_with_level,
    validation_error, DetailLevel, Error, ErrorCode, LinkAction, LinkParams, RelationshipType,
    MINIMAL_FIELDS,
};

fn link_params(item_gid: Option<String>, item_gids: Option<Vec<String>>) -> LinkParams {
    LinkParams {
        action: LinkAction::Add,
        relationship: RelationshipType::TaskProject,
        target_gid: "task123".to_string(),
        item_gid,
        item_gids,
        section_gid: None,
        insert_before: None,
        insert_after: None,
        access_level: None,
    }
}

#[test]
fn test_depth_to_option_negative_is_unlimited() {
    assert_eq!(depth_to_option(-1), None);
    assert_eq!(depth_to_option(-100), None);
}

#[test]
fn test_depth_to_option_zero_is_some_zero() {
    assert_eq!(depth_to_option(0), Some(0));
}

#[test]
fn test_depth_to_option_positive_values() {
    assert_eq!(depth_to_option(1), Some(1));
    assert_eq!(depth_to_option(5), Some(5));
    assert_eq!(depth_to_option(100), Some(100));
}

#[test]
fn test_error_to_mcp_not_found() {
    let error = Error::NotFound("project: Unknown object: 999".to_string());
    let mcp_error = error_to_mcp("Failed to get project", error);
    assert_eq!(mcp_error.code, ErrorCode::InvalidParams);
    assert_eq!(
        mcp_error.message,
        "Failed to get project: project: Unknown object: 999"
    );
}

#[test]
fn test_error_to_mcp_missing_token() {
    let mcp_error = error_to_mcp("Test", Error::MissingToken);
    assert_eq!(mcp_error.code, ErrorCode::InvalidParams);
    assert!(mcp_error.message.contains("ASANA_TOKEN"));
}

#[test]
fn test_error_to_mcp_api_error() {
    let error = Error::Api {
        message: "Rate limited".to_string(),
    };
    let mcp_error = error_to_mcp("Failed to search tasks", error);
    assert_eq!(mcp_error.code, ErrorCode::InternalError);
    assert_eq!(mcp_error.message, "Failed to search tasks: Rate limited");
}

#[test]
fn test_error_to_mcp_invalid_token() {
    let mcp_error = error_to_mcp("Test", Error::InvalidToken);
    assert_eq!(mcp_error.code, ErrorCode::InvalidParams);
    assert!(mcp_error.message.contains("invalid token"));
}

#[test]
fn test_error_to_mcp_parse_error() {
    let parse_err = serde_json::from_str::<serde_json::Value>("not valid json").unwrap_err();
    let error = Error::Parse(parse_err.to_string());
    let mcp_error = error_to_mcp("Test", error);
    assert_eq!(mcp_error.code, ErrorCode::InternalError);
    assert!(mcp_error.message.contains("parse"));
}

#[test]
fn test_validation_error() {
    let error = validation_error("name is required");
    assert_eq!(error.code, ErrorCode::InvalidParams);
    assert_eq!(error.message, "name is required");
}

#[test]
fn test_get_item_gids_from_item_gids() {
    let params = link_params(None, Some(vec!["a".to_string(), "b".to_string()]));
    let result = get_item_gids(&params).unwrap();
    assert_eq!(result, vec!["a", "b"]);
}

#[test]
fn test_get_item_gids_from_item_gid() {
    let params = link_params(Some("single".to_string()), None);
    let result = get_item_gids(&params).unwrap();
    assert_eq!(result, vec!["single"]);
}

#[test]
fn test_get_item_gids_empty_array_error() {
    let params = link_params(None, Some(vec![]));
    let result = get_item_gids(&params);
    assert!(result.is_err());
    assert!(result.unwrap_err().message.contains("cannot be empty"));
}

#[test]
fn test_get_item_gids_neither_provided_error() {
    let params = link_params(None, None);
    let result = get_item_gids(&params);
    assert!(result.is_err());
    assert!(result.unwrap_err().message.contains("required"));
}

#[test]
fn test_opt_fields_override() {
    let result = resolve_fields_with_level(
        DetailLevel::Minimal,
        &Some(vec!["extra".to_string()]),
        &Some(vec!["custom1".to_string(), "custom2".to_string()]),
        "default_fields",
    );
    assert_eq!(result, "custom1,custom2");
}

#[test]
fn test_minimal_detail_level() {
    let result = resolve_fields_with_level(DetailLevel::Minimal, &None, &None, "default_fields");
    assert_eq!(result, MINIMAL_FIELDS);
}

#[test]
fn test_default_detail_level() {
    let result = resolve_fields_with_level(
        DetailLevel::Default,
        &None,
        &None,
        "gid,name,completed,assignee",
    );
    assert_eq!(result, "gid,name,completed,assignee");
}

#[test]
fn test_minimal_with_extra_fields() {
    let result = resolve_fields_with_level(
        DetailLevel::Minimal,
        &Some(vec!["due_on".to_string(), "assignee.name".to_string()]),
        &None,
        "default_fields",
    );
    assert_eq!(result, "gid,name,resource_type,due_on,assignee.name");
}

#[test]
fn test_default_with_extra_fields() {
    let result = resolve_fields_with_level(
        DetailLevel::Default,
        &Some(vec!["custom_field".to_string()]),
        &None,
        "gid,name",
    );
    assert_eq!(result, "gid,name,custom_field");
}

#[test]
fn test_empty_extra_fields_ignored() {
    let result =
        resolve_fields_with_level(DetailLevel::Minimal, &Some(vec![]), &None, "default_fields");
    assert_eq!(result, MINIMAL_FIELDS);
}

#[test]
fn test_empty_opt_fields_ignored() {
    let result =
        resolve_fields_with_level(DetailLevel::Default, &None, &Some(vec![]), "default_fields");
    assert_eq!(result, "default_fields");
}

#[test]
fn require_gid_accepts_non_empty_and_rejects_empty() {
    assert_eq!(require_gid(&Some("p1".to_string()), "project").unwrap(), "p1");
    let err = require_gid(&Some(String::new()), "project").unwrap_err();
    assert_eq!(err.code, ErrorCode::InvalidParams);
    assert_eq!(err.message, "gid is required for project");
    assert!(require_gid(&None, "task").is_err());
}

#[test]
fn error_to_mcp_http_and_cycle_are_internal() {
    let e = error_to_mcp("Ctx", Error::Http("connection refused".to_string()));
    assert_eq!(e.code, ErrorCode::InternalError);
    assert_eq!(e.message, "Ctx: HTTP error - connection refused");
    let c = error_to_mcp("Ctx", Error::Cyclic("p1".to_string()));
    assert_eq!(c.code, ErrorCode::InternalError);
    assert_eq!(c.message, "Ctx: container graph is cyclic at p1");
}

#[test]
fn error_messages_describe_each_kind() {
    assert_eq!(Error::NotFound("x".to_string()).message(), "resource not found: x");
    assert_eq!(Error::Api { message: "m".to_string() }.message(), "API error: m");
    assert_eq!(Error::Parse("p".to_string()).message(), "failed to parse response: p");
    assert_eq!(Error::MissingToken.message(), "ASANA_TOKEN environment variable is not set");
}
