use asanamcp::envelope::check_status;
use asanamcp::pager::page_query;
use asanamcp::{
    decode_page, decode_single, error_from_response, extract_error_message, DataWrapper, Error,
    ListWrapper, Pager, PortfolioItem, Resource,
};

#[test]
fn test_extract_error_message_valid() {
    let body = r#"{"errors": [{"message": "Project not found"}]}"#;
    assert_eq!(extract_error_message(body), Some("Project not found".to_string()));
}

#[test]
fn test_extract_error_message_empty_errors() {
    assert_eq!(extract_error_message(r#"{"errors": []}"#), None);
}

#[test]
fn test_extract_error_message_malformed() {
    assert_eq!(extract_error_message("not json"), None);
}

#[test]
fn test_extract_error_message_wrong_structure() {
    assert_eq!(
        extract_error_message(r#"{"error": "Something went wrong"}"#),
        None
    );
}

#[test]
fn extract_error_message_needs_every_entry_to_have_a_message() {
    let body = r#"{"errors": [{"message": "first"}, {"code": 3}]}"#;
    assert_eq!(extract_error_message(body), None);
    let body = r#"{"errors": [{"message": "first", "help": "x"}, {"message": "second"}]}"#;
    assert_eq!(extract_error_message(body), Some("first".to_string()));
}

#[test]
fn test_resource_deserialization() {
    let json = r#"{"gid": "123", "name": "Test", "custom_field": "value"}"#;
    let resource = Resource::from_json_text(json).unwrap();
    assert_eq!(resource.gid, "123");
    assert_eq!(resource.field_str("name").unwrap(), "Test");
    assert_eq!(resource.field_str("custom_field").unwrap(), "value");
}

#[test]
fn test_portfolio_item_deserialization() {
    let json = r#"{"gid": "456", "resource_type": "project", "name": "My Project"}"#;
    let resource = Resource::from_json_text(json).unwrap();
    let item = PortfolioItem::from_resource(&resource).unwrap();
    assert_eq!(item.gid, "456");
    assert_eq!(item.resource_type, "project");
    assert_eq!(item.name, Some("My Project".to_string()));
}

#[test]
fn test_data_wrapper() {
    let json = r#"{"data": {"gid": "789", "name": "Wrapped"}}"#;
    let wrapper = DataWrapper::from_json_text(json).unwrap();
    let resource = Resource::from_json_text(&wrapper.data).unwrap();
    assert_eq!(resource.gid, "789");
}

#[test]
fn test_list_wrapper_with_pagination() {
    let json = r#"{
        "data": [{"gid": "1"}, {"gid": "2"}],
        "next_page": {"offset": "abc123"}
    }"#;
    let wrapper = ListWrapper::from_json_text(json).unwrap();
    assert_eq!(wrapper.data.len(), 2);
    assert_eq!(wrapper.next_page.unwrap().offset, "abc123");
}

#[test]
fn list_wrapper_without_next_page_ends_the_list() {
    let w = ListWrapper::from_json_text(r#"{"data": []}"#).unwrap();
    assert!(w.data.is_empty());
    assert!(w.next_page.is_none());
    let w = ListWrapper::from_json_text(r#"{"data": [], "next_page": null}"#).unwrap();
    assert!(w.next_page.is_none());
    assert!(matches!(
        ListWrapper::from_json_text(r#"{"data": {}}"#),
        Err(Error::Parse(_))
    ));
    assert!(matches!(
        ListWrapper::from_json_text(r#"{"data": [], "next_page": 5}"#),
        Err(Error::Parse(_))
    ));
}

#[test]
fn resource_requires_string_gid_and_keeps_unknown_fields() {
    assert!(matches!(Resource::from_json_text(r#"{"name": "x"}"#), Err(Error::Parse(_))));
    assert!(matches!(Resource::from_json_text(r#"{"gid": 5}"#), Err(Error::Parse(_))));
    assert!(matches!(
        Resource::from_json_text(r#"{"gid": "1", "resource_type": 3}"#),
        Err(Error::Parse(_))
    ));
    let r = Resource::from_json_text(r#"{"gid": "1", "resource_type": null, "n": [1, {"a": true}]}"#)
        .unwrap();
    assert_eq!(r.resource_type, None);
    assert_eq!(r.fields.len(), 1);
    assert_eq!(r.fields[0].0, "n");
    assert_eq!(r.fields[0].1, r#"[1,{"a":true}]"#);
}

#[test]
fn round_trip_keeps_every_key_and_value() {
    let text = r#"{"gid": "7", "resource_type": "task", "unknown": {"deep": [1, 2]}, "n": 3}"#;
    let r = Resource::from_json_text(text).unwrap();
    let again = Resource::from_json_text(&r.to_json_text()).unwrap();
    assert_eq!(again.gid, "7");
    assert_eq!(again.resource_type, Some("task".to_string()));
    let input: serde_json::Value = serde_json::from_str(text).unwrap();
    let written: serde_json::Value = serde_json::from_str(&r.to_json_text()).unwrap();
    assert_eq!(input, written);
}

#[test]
fn status_404_is_not_found_with_fallback_text() {
    match error_from_response(404, "") {
        Error::NotFound(m) => assert_eq!(m, "resource not found"),
        e => panic!("expected NotFound, got {:?}", e),
    }
    match error_from_response(404, "not json at all") {
        Error::NotFound(m) => assert_eq!(m, "resource not found"),
        e => panic!("expected NotFound, got {:?}", e),
    }
    match error_from_response(404, r#"{"errors": [{"message": "project: Unknown object: 999"}]}"#) {
        Error::NotFound(m) => assert_eq!(m, "project: Unknown object: 999"),
        e => panic!("expected NotFound, got {:?}", e),
    }
}

#[test]
fn other_statuses_are_api_errors() {
    match error_from_response(403, r#"{"errors": [{"message": "Not authorized"}]}"#) {
        Error::Api { message } => assert_eq!(message, "Not authorized"),
        e => panic!("expected Api, got {:?}", e),
    }
    match error_from_response(500, "Internal Server Error") {
        Error::Api { message } => assert_eq!(message, "HTTP 500 Internal Server Error"),
        e => panic!("expected Api, got {:?}", e),
    }
    match error_from_response(799, "") {
        Error::Api { message } => assert_eq!(message, "HTTP 799 "),
        e => panic!("expected Api, got {:?}", e),
    }
    assert!(check_status(201, "").is_ok());
    assert!(check_status(302, "").is_err());
}

#[test]
fn decode_single_reads_the_data_member() {
    let r = decode_single(200, r#"{"data": {"gid": "123", "name": "Test Item"}}"#).unwrap();
    assert_eq!(r.gid, "123");
    assert_eq!(r.field_str("name").unwrap(), "Test Item");
    assert!(matches!(decode_single(200, r#"{"gid": "1"}"#), Err(Error::Parse(_))));
    assert!(matches!(decode_single(404, ""), Err(Error::NotFound(_))));
}

#[test]
fn test_get_all_multiple_pages() {
    let pages = [
        r#"{"data": [{"gid": "1"}], "next_page": {"offset": "page2"}}"#,
        r#"{"data": [{"gid": "2"}], "next_page": {"offset": "page3"}}"#,
        r#"{"data": [{"gid": "3"}], "next_page": null}"#,
    ];
    let mut pager = Pager::new();
    let mut offsets = Vec::new();
    let mut requests = 0;
    while let Some(offset) = pager.pending() {
        offsets.push(offset);
        let page = decode_page(200, pages[requests]).unwrap();
        requests += 1;
        pager.record(page);
    }
    assert_eq!(requests, 3);
    assert_eq!(offsets, vec![None, Some("page2".to_string()), Some("page3".to_string())]);
    let items = pager.into_items();
    let gids: Vec<String> = items
        .iter()
        .map(|t| Resource::from_json_text(t).unwrap().gid)
        .collect();
    assert_eq!(gids, vec!["1", "2", "3"]);
}

#[test]
fn test_get_all_empty_result() {
    let mut pager = Pager::new();
    assert_eq!(pager.pending(), Some(None));
    pager.record(decode_page(200, r#"{"data": [], "next_page": null}"#).unwrap());
    assert!(pager.is_finished());
    assert_eq!(pager.pending(), None);
    assert!(pager.into_items().is_empty());
}

#[test]
fn test_get_all_preserves_query_params() {
    let base = vec![("workspace".to_string(), "123".to_string())];
    assert_eq!(page_query(&base, &None), base);
    let q = page_query(&base, &Some("page2".to_string()));
    assert_eq!(
        q,
        vec![
            ("workspace".to_string(), "123".to_string()),
            ("offset".to_string(), "page2".to_string())
        ]
    );
}
