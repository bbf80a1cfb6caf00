use std::collections::HashMap;

use asanamcp::{
    decode_items, decode_single, get_portfolio_recursive, get_tasks_recursive, list_reply,
    resolve_favorites, single_reply, Error, PortfolioItemExpanded, Reply, Request, Resource, Step,
    Store,
};

/// A remote service made of fixed answers, keyed by path (and, for the
/// favorites lists, by the kind asked for).
#[derive(Default)]
struct Remote {
    details: HashMap<String, String>,
    lists: HashMap<String, Vec<String>>,
}

impl Remote {
    fn detail(mut self, path: &str, json: &str) -> Self {
        self.details.insert(path.to_string(), json.to_string());
        self
    }

    fn list(mut self, key: &str, items: &[&str]) -> Self {
        self.lists
            .insert(key.to_string(), items.iter().map(|s| s.to_string()).collect());
        self
    }

    fn key(q: &Request) -> String {
        let kind = q
            .query()
            .into_iter()
            .find(|(k, _)| k == "resource_type")
            .map(|(_, v)| v)
            .unwrap_or_default();
        format!("{}{}", q.path(), if kind.is_empty() { String::new() } else { format!("?{}", kind) })
    }

    fn answer(&self, q: &Request) -> Reply {
        let key = Remote::key(q);
        if q.is_list() {
            match self.lists.get(&key) {
                Some(items) => list_reply(decode_items(items)),
                None => Reply::Failed(Error::NotFound("resource not found".to_string())),
            }
        } else {
            match self.details.get(&key) {
                Some(json) => single_reply(decode_single(200, &format!("{{\"data\": {}}}", json))),
                None => single_reply(decode_single(404, "")),
            }
        }
    }
}

fn drive<T>(remote: &Remote, log: &mut Vec<String>, f: impl Fn(&Store) -> Step<T>) -> T {
    let mut store = Store::new();
    loop {
        match f(&store) {
            Step::Done(r) => return r,
            Step::Need(q) => {
                log.push(Remote::key(&q));
                let reply = remote.answer(&q);
                store.record(q, reply);
            }
        }
    }
}

fn gids(v: &[Resource]) -> Vec<String> {
    v.iter().map(|r| r.gid.clone()).collect()
}

#[test]
fn portfolio_depth_zero_returns_no_items() {
    let remote = Remote::default()
        .detail("/portfolios/port123", r#"{"gid": "port123", "name": "Root"}"#)
        .list("/portfolios/port123/items", &[r#"{"gid": "p1", "resource_type": "project"}"#]);
    let mut log = Vec::new();
    let node = drive(&remote, &mut log, |s| get_portfolio_recursive(s, &"port123".to_string(), Some(0)))
        .unwrap();
    assert_eq!(node.portfolio.gid, "port123");
    assert!(node.items.is_empty());
    assert_eq!(log, vec!["/portfolios/port123"]);
}

#[test]
fn scenario_depth_one_stops_at_nested_container() {
    let remote = Remote::default()
        .detail("/portfolios/P", r#"{"gid": "P"}"#)
        .list(
            "/portfolios/P/items",
            &[
                r#"{"gid": "A", "resource_type": "project", "name": "A"}"#,
                r#"{"gid": "Q", "resource_type": "portfolio", "name": "Q"}"#,
            ],
        )
        .detail("/projects/A", r#"{"gid": "A", "name": "Project A"}"#)
        .detail("/portfolios/Q", r#"{"gid": "Q"}"#)
        .list("/portfolios/Q/items", &[r#"{"gid": "B", "resource_type": "project"}"#])
        .detail("/projects/B", r#"{"gid": "B"}"#);
    let mut log = Vec::new();
    let node =
        drive(&remote, &mut log, |s| get_portfolio_recursive(s, &"P".to_string(), Some(1))).unwrap();
    assert_eq!(node.items.len(), 2);
    match &node.items[0] {
        PortfolioItemExpanded::Project(a) => assert_eq!(a.gid, "A"),
        other => panic!("expected a leaf, got {:?}", other),
    }
    match &node.items[1] {
        PortfolioItemExpanded::Portfolio(q) => {
            assert_eq!(q.portfolio.gid, "Q");
            assert!(q.items.is_empty());
        }
        other => panic!("expected a nested container, got {:?}", other),
    }
    assert!(!log.iter().any(|k| k == "/projects/B"));
    assert!(!log.iter().any(|k| k == "/portfolios/Q/items"));
}

#[test]
fn unlimited_depth_traverses_nested() {
    let remote = Remote::default()
        .detail("/portfolios/parent", r#"{"gid": "parent"}"#)
        .list("/portfolios/parent/items", &[r#"{"gid": "child", "resource_type": "portfolio"}"#])
        .detail("/portfolios/child", r#"{"gid": "child"}"#)
        .list(
            "/portfolios/child/items",
            &[
                r#"{"gid": "proj1", "resource_type": "project"}"#,
                r#"{"gid": "g1", "resource_type": "goal"}"#,
            ],
        )
        .detail("/projects/proj1", r#"{"gid": "proj1"}"#);
    let mut log = Vec::new();
    let node =
        drive(&remote, &mut log, |s| get_portfolio_recursive(s, &"parent".to_string(), None)).unwrap();
    match &node.items[0] {
        PortfolioItemExpanded::Portfolio(child) => {
            assert_eq!(child.items.len(), 1);
            match &child.items[0] {
                PortfolioItemExpanded::Project(p) => assert_eq!(p.gid, "proj1"),
                other => panic!("expected a leaf, got {:?}", other),
            }
        }
        other => panic!("expected a nested container, got {:?}", other),
    }
    let mut sorted = log.clone();
    sorted.sort();
    sorted.dedup();
    assert_eq!(sorted.len(), log.len());
}

#[test]
fn failure_inside_expansion_aborts() {
    let remote = Remote::default()
        .detail("/portfolios/P", r#"{"gid": "P"}"#)
        .list("/portfolios/P/items", &[r#"{"gid": "gone", "resource_type": "project"}"#]);
    let mut log = Vec::new();
    let r = drive(&remote, &mut log, |s| get_portfolio_recursive(s, &"P".to_string(), None));
    assert!(matches!(r, Err(Error::NotFound(_))));
}

#[test]
fn self_containing_container_is_reported() {
    let remote = Remote::default()
        .detail("/portfolios/loop", r#"{"gid": "loop"}"#)
        .list("/portfolios/loop/items", &[r#"{"gid": "loop", "resource_type": "portfolio"}"#]);
    let mut log = Vec::new();
    let r = drive(&remote, &mut log, |s| get_portfolio_recursive(s, &"loop".to_string(), None));
    assert!(matches!(r, Err(Error::Cyclic(_))));
    assert_eq!(log.len(), 2);
}

fn project_remote() -> Remote {
    Remote::default()
        .detail("/projects/proj123", r#"{"gid": "proj123"}"#)
        .list(
            "/projects/proj123/tasks",
            &[
                r#"{"gid": "t1", "num_subtasks": 1}"#,
                r#"{"gid": "t2", "num_subtasks": 0}"#,
            ],
        )
        .list("/tasks/t1/subtasks", &[r#"{"gid": "s1", "num_subtasks": 1}"#])
        .list("/tasks/s1/subtasks", &[r#"{"gid": "ss1"}"#])
}

#[test]
fn tasks_from_project_no_subtasks() {
    let remote = project_remote();
    let mut log = Vec::new();
    let tasks = drive(&remote, &mut log, |s| {
        get_tasks_recursive(s, &"proj123".to_string(), Some(0), Some(0))
    })
    .unwrap();
    assert_eq!(gids(&tasks), vec!["t1", "t2"]);
}

#[test]
fn tasks_from_project_with_subtask_expansion() {
    let remote = project_remote();
    let mut log = Vec::new();
    let one = drive(&remote, &mut log, |s| {
        get_tasks_recursive(s, &"proj123".to_string(), Some(1), Some(0))
    })
    .unwrap();
    assert_eq!(gids(&one), vec!["t1", "s1", "t2"]);
    let all = drive(&remote, &mut log, |s| {
        get_tasks_recursive(s, &"proj123".to_string(), None, Some(0))
    })
    .unwrap();
    assert_eq!(gids(&all), vec!["t1", "s1", "ss1", "t2"]);
}

#[test]
fn tasks_detect_portfolio_after_project_404() {
    let remote = Remote::default()
        .detail("/portfolios/port123", r#"{"gid": "port123"}"#)
        .list(
            "/portfolios/port123/items",
            &[
                r#"{"gid": "projA", "resource_type": "project"}"#,
                r#"{"gid": "projGone", "resource_type": "project"}"#,
            ],
        )
        .detail("/projects/projA", r#"{"gid": "projA"}"#)
        .detail("/projects/projGone", r#"{"gid": "projGone"}"#)
        .list("/projects/projA/tasks", &[r#"{"gid": "task1"}"#]);
    let mut log = Vec::new();
    let tasks = drive(&remote, &mut log, |s| {
        get_tasks_recursive(s, &"port123".to_string(), Some(0), Some(1))
    })
    .unwrap();
    assert_eq!(gids(&tasks), vec!["task1"]);
    assert_eq!(log[0], "/projects/port123");
    assert_eq!(log[1], "/portfolios/port123");
}

#[test]
fn tasks_probe_other_failure_is_the_result() {
    let remote = Remote::default();
    let mut store = Store::new();
    let id = "x".to_string();
    let q = match get_tasks_recursive(&store, &id, None, None) {
        Step::Need(q) => q,
        Step::Done(r) => panic!("expected a request, got {:?}", r),
    };
    store.record(q, Reply::Failed(Error::Api { message: "Rate limited".to_string() }));
    match get_tasks_recursive(&store, &id, None, None) {
        Step::Done(Err(Error::Api { message })) => assert_eq!(message, "Rate limited"),
        other => panic!("unexpected {:?}", other),
    }
    drop(remote);
}

#[test]
fn favorites_isolate_a_failing_reference() {
    let remote = Remote::default()
        .list(
            "/users/me/favorites?project",
            &[
                r#"{"gid": "a", "resource_type": "project", "name": "A"}"#,
                r#"{"gid": "b", "resource_type": "project", "name": "B"}"#,
                r#"{"gid": "c", "resource_type": "project", "name": "C"}"#,
            ],
        )
        .list("/users/me/favorites?portfolio", &[])
        .detail("/projects/a", r#"{"gid": "a"}"#)
        .detail("/projects/c", r#"{"gid": "c"}"#);
    let mut log = Vec::new();
    let fav = drive(&remote, &mut log, |s| resolve_favorites(s, &"ws".to_string(), Some(0))).unwrap();
    assert_eq!(gids(&fav.projects), vec!["a", "c"]);
    assert!(fav.portfolios.is_empty());
    assert_eq!(fav.errors.len(), 1);
    assert_eq!(fav.errors[0].item.gid, "b");
    assert_eq!(fav.errors[0].item.name, Some("B".to_string()));
    assert_eq!(fav.errors[0].error, "resource not found: resource not found");
}

#[test]
fn favorites_resolve_portfolios_to_depth() {
    let remote = Remote::default()
        .list("/users/me/favorites?project", &[])
        .list(
            "/users/me/favorites?portfolio",
            &[r#"{"gid": "pf", "resource_type": "portfolio"}"#],
        )
        .detail("/portfolios/pf", r#"{"gid": "pf"}"#)
        .list("/portfolios/pf/items", &[r#"{"gid": "x", "resource_type": "project"}"#])
        .detail("/projects/x", r#"{"gid": "x"}"#);
    let mut log = Vec::new();
    let fav = drive(&remote, &mut log, |s| resolve_favorites(s, &"ws".to_string(), None)).unwrap();
    assert_eq!(fav.portfolios.len(), 1);
    assert_eq!(fav.portfolios[0].items.len(), 1);
    assert!(fav.errors.is_empty());
}

#[test]
fn favorites_list_failure_is_fatal() {
    let remote = Remote::default();
    let mut log = Vec::new();
    let r = drive(&remote, &mut log, |s| resolve_favorites(s, &"ws".to_string(), None));
    assert!(matches!(r, Err(Error::NotFound(_))));
}

#[test]
fn requests_name_their_paths_and_queries() {
    let q = Request::PortfolioItems("p9".to_string());
    assert_eq!(q.path(), "/portfolios/p9/items");
    assert_eq!(
        q.query(),
        vec![("opt_fields".to_string(), "gid,resource_type,name".to_string())]
    );
    assert!(q.is_list());
    let probe = Request::ProjectProbe("x".to_string());
    assert_eq!(probe.path(), "/projects/x");
    assert_eq!(probe.query()[0].1, "gid");
    assert!(!probe.is_list());
}

fn name_of(r: &Resource) -> String {
    r.field_str("name").unwrap_or_default()
}

#[test]
fn test_get_portfolio_depth_zero_returns_no_items() {
    let remote = Remote::default()
        .detail("/portfolios/port123", r#"{"gid": "port123", "name": "Test Portfolio"}"#);
    let mut log = Vec::new();
    let node = drive(&remote, &mut log, |s| get_portfolio_recursive(s, &"port123".to_string(), Some(0)))
        .unwrap();
    assert_eq!(name_of(&node.portfolio), "Test Portfolio");
    assert!(node.items.is_empty());
}

#[test]
fn test_get_portfolio_depth_one_fetches_direct_children() {
    let remote = Remote::default()
        .detail("/portfolios/port123", r#"{"gid": "port123", "name": "Parent Portfolio"}"#)
        .list(
            "/portfolios/port123/items",
            &[r#"{"gid": "proj1", "resource_type": "project", "name": "Project 1"}"#],
        )
        .detail("/projects/proj1", r#"{"gid": "proj1", "name": "Project 1 Full"}"#);
    let mut log = Vec::new();
    let node = drive(&remote, &mut log, |s| get_portfolio_recursive(s, &"port123".to_string(), Some(1)))
        .unwrap();
    assert_eq!(name_of(&node.portfolio), "Parent Portfolio");
    match &node.items[0] {
        PortfolioItemExpanded::Project(p) => assert_eq!(name_of(p), "Project 1 Full"),
        other => panic!("expected a leaf, got {:?}", other),
    }
}

#[test]
fn test_get_portfolio_unlimited_depth_traverses_nested() {
    let remote = Remote::default()
        .detail("/portfolios/parent", r#"{"gid": "parent", "name": "Parent"}"#)
        .list(
            "/portfolios/parent/items",
            &[r#"{"gid": "child", "resource_type": "portfolio", "name": "Child"}"#],
        )
        .detail("/portfolios/child", r#"{"gid": "child", "name": "Child Portfolio"}"#)
        .list(
            "/portfolios/child/items",
            &[r#"{"gid": "proj1", "resource_type": "project", "name": "Project"}"#],
        )
        .detail("/projects/proj1", r#"{"gid": "proj1", "name": "Nested Project"}"#);
    let mut log = Vec::new();
    let node = drive(&remote, &mut log, |s| get_portfolio_recursive(s, &"parent".to_string(), None))
        .unwrap();
    assert_eq!(name_of(&node.portfolio), "Parent");
    match &node.items[0] {
        PortfolioItemExpanded::Portfolio(child) => {
            assert_eq!(name_of(&child.portfolio), "Child Portfolio");
            match &child.items[0] {
                PortfolioItemExpanded::Project(p) => assert_eq!(name_of(p), "Nested Project"),
                other => panic!("expected a leaf, got {:?}", other),
            }
        }
        other => panic!("expected a nested container, got {:?}", other),
    }
}

#[test]
fn test_get_tasks_from_project_no_subtasks() {
    let remote = Remote::default()
        .detail("/projects/proj123", r#"{"gid": "proj123"}"#)
        .list(
            "/projects/proj123/tasks",
            &[
                r#"{"gid": "task1", "name": "Task 1", "num_subtasks": 0}"#,
                r#"{"gid": "task2", "name": "Task 2", "num_subtasks": 0}"#,
            ],
        );
    let mut log = Vec::new();
    let tasks = drive(&remote, &mut log, |s| {
        get_tasks_recursive(s, &"proj123".to_string(), Some(0), Some(0))
    })
    .unwrap();
    let names: Vec<String> = tasks.iter().map(name_of).collect();
    assert_eq!(names, vec!["Task 1", "Task 2"]);
}

#[test]
fn test_get_tasks_from_project_with_subtask_expansion() {
    let remote = Remote::default()
        .detail("/projects/proj123", r#"{"gid": "proj123"}"#)
        .list(
            "/projects/proj123/tasks",
            &[r#"{"gid": "task1", "name": "Parent Task", "num_subtasks": 2}"#],
        )
        .list(
            "/tasks/task1/subtasks",
            &[
                r#"{"gid": "sub1", "name": "Subtask 1", "num_subtasks": 0}"#,
                r#"{"gid": "sub2", "name": "Subtask 2", "num_subtasks": 0}"#,
            ],
        );
    let mut log = Vec::new();
    let tasks = drive(&remote, &mut log, |s| {
        get_tasks_recursive(s, &"proj123".to_string(), Some(1), Some(0))
    })
    .unwrap();
    let names: Vec<String> = tasks.iter().map(name_of).collect();
    assert_eq!(names, vec!["Parent Task", "Subtask 1", "Subtask 2"]);
}

#[test]
fn test_get_tasks_detects_portfolio_after_project_404() {
    let remote = Remote::default()
        .detail("/portfolios/port123", r#"{"gid": "port123", "name": "Portfolio"}"#)
        .list(
            "/portfolios/port123/items",
            &[r#"{"gid": "proj1", "resource_type": "project", "name": "Project"}"#],
        )
        .detail("/projects/proj1", r#"{"gid": "proj1"}"#)
        .list(
            "/projects/proj1/tasks",
            &[r#"{"gid": "task1", "name": "Portfolio Task", "num_subtasks": 0}"#],
        );
    let mut log = Vec::new();
    let tasks = drive(&remote, &mut log, |s| {
        get_tasks_recursive(s, &"port123".to_string(), Some(0), Some(1))
    })
    .unwrap();
    let names: Vec<String> = tasks.iter().map(name_of).collect();
    assert_eq!(names, vec!["Portfolio Task"]);
}

#[test]
fn test_get_workspace_favorites() {
    let remote = Remote::default()
        .list(
            "/users/me/favorites?project",
            &[r#"{"gid": "proj1", "resource_type": "project", "name": "My Project"}"#],
        )
        .list(
            "/users/me/favorites?portfolio",
            &[r#"{"gid": "port1", "resource_type": "portfolio", "name": "My Portfolio"}"#],
        )
        .detail("/projects/proj1", r#"{"gid": "proj1", "name": "My Project", "color": "blue"}"#)
        .detail("/portfolios/port1", r#"{"gid": "port1", "name": "My Portfolio"}"#)
        .list("/portfolios/port1/items", &[]);
    let mut log = Vec::new();
    let fav = drive(&remote, &mut log, |s| resolve_favorites(s, &"ws123".to_string(), Some(0))).unwrap();
    assert_eq!(name_of(&fav.projects[0]), "My Project");
    assert_eq!(name_of(&fav.portfolios[0].portfolio), "My Portfolio");
    assert!(fav.errors.is_empty());
}

#[test]
fn test_get_task_with_all_context() {
    let remote = Remote::default()
        .detail("/tasks/task123", r#"{"gid": "task123", "name": "Test Task", "completed": false}"#)
        .list(
            "/tasks/task123/subtasks",
            &[r#"{"gid": "sub1", "name": "Subtask 1", "completed": false, "num_subtasks": 0}"#],
        )
        .list("/tasks/task123/dependencies", &[r#"{"gid": "dep1", "name": "Blocker Task"}"#])
        .list("/tasks/task123/dependents", &[])
        .list(
            "/tasks/task123/stories",
            &[
                r#"{"gid": "story1", "resource_subtype": "comment_added", "text": "Hello"}"#,
                r#"{"gid": "story2", "resource_subtype": "added_to_project", "text": null}"#,
            ],
        );
    let mut log = Vec::new();
    let t = drive(&remote, &mut log, |s| {
        asanamcp::get_task_with_context(s, &"task123".to_string(), true, true, true)
    })
    .unwrap();
    assert_eq!(name_of(&t.task), "Test Task");
    assert_eq!(name_of(&t.subtasks[0]), "Subtask 1");
    assert_eq!(name_of(&t.dependencies[0]), "Blocker Task");
    assert!(t.dependents.is_empty());
    assert_eq!(t.comments.len(), 1);
    assert_eq!(t.comments[0].field_str("text").unwrap(), "Hello");
}

#[test]
fn test_get_task_without_context() {
    let remote = Remote::default()
        .detail("/tasks/task123", r#"{"gid": "task123", "name": "Test Task", "completed": false}"#);
    let mut log = Vec::new();
    let t = drive(&remote, &mut log, |s| {
        asanamcp::get_task_with_context(s, &"task123".to_string(), false, false, false)
    })
    .unwrap();
    assert_eq!(name_of(&t.task), "Test Task");
    assert!(t.subtasks.is_empty() && t.dependencies.is_empty() && t.comments.is_empty());
    assert_eq!(log, vec!["/tasks/task123"]);
}
