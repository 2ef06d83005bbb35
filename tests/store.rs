use instagrap::model::{OperationStatus, ScrapingOperation, Todo, TodoStatus};
use instagrap::store::{AppState, StoreError};

fn op(id: &str, account: &str, status: OperationStatus) -> ScrapingOperation {
    ScrapingOperation {
        operation_id: id.to_string(),
        target_account: account.to_string(),
        target_count: 10,
        started_at: "2024-01-01T00:00:00+00:00".to_string(),
        status,
        results: None,
        error_message: None,
        exec_id: None,
    }
}

fn todo(id: &str, status: TodoStatus, manually_completed: bool, completed_at: Option<&str>) -> Todo {
    Todo {
        id: id.to_string(),
        target_account: "bob".to_string(),
        target_count: 5,
        bio_agents: 2,
        batch_size: 3,
        status,
        created_at: "t0".to_string(),
        started_at: None,
        completed_at: completed_at.map(|s| s.to_string()),
        operation_id: None,
        exec_id: None,
        results: None,
        error_message: None,
        manually_completed,
        criteria_preset_id: None,
        criteria_preset_name: None,
    }
}

#[test]
fn new_state_is_empty() {
    let s = AppState::new();
    assert!(s.scraping_operations.is_empty());
    assert!(s.todos.is_empty());
    assert!(s.saved_criteria.is_empty());
    assert!(s.active_criteria_id.is_none());
    assert!(s.last_login_gcs_uri.is_none());
}

#[test]
fn add_operation_evicts_same_account() {
    let mut s = AppState::new();
    s.add_operation(op("a1", "alice", OperationStatus::Running));
    s.add_operation(op("b1", "bob", OperationStatus::Running));
    s.add_operation(op("a2", "alice", OperationStatus::Completed));
    let ids: Vec<&str> = s.scraping_operations.iter().map(|o| o.operation_id.as_str()).collect();
    assert_eq!(ids, vec!["b1", "a2"]);
    let alice = s.scraping_operations.iter().filter(|o| o.target_account == "alice").count();
    assert_eq!(alice, 1);
}

#[test]
fn update_operation_sets_outcome() {
    let mut s = AppState::new();
    s.add_operation(op("a1", "alice", OperationStatus::Running));
    let found = s.update_operation(&"a1".to_string(), OperationStatus::Failed, None, Some("boom".to_string()));
    assert!(found);
    assert_eq!(s.scraping_operations[0].status, OperationStatus::Failed);
    assert_eq!(s.scraping_operations[0].error_message.as_deref(), Some("boom"));
}

#[test]
fn update_operation_unknown_id_is_noop() {
    let mut s = AppState::new();
    s.add_operation(op("a1", "alice", OperationStatus::Running));
    let found = s.update_operation(&"zz".to_string(), OperationStatus::Failed, None, None);
    assert!(!found);
    assert_eq!(s.scraping_operations[0].status, OperationStatus::Running);
}

#[test]
fn get_operation_finds_by_id() {
    let mut s = AppState::new();
    s.add_operation(op("a1", "alice", OperationStatus::Running));
    assert_eq!(s.get_operation(&"a1".to_string()).unwrap().target_account, "alice");
    assert!(s.get_operation(&"nope".to_string()).is_none());
}

#[test]
fn clear_completed_keeps_only_running() {
    let mut s = AppState::new();
    s.add_operation(op("a", "a", OperationStatus::Running));
    s.add_operation(op("b", "b", OperationStatus::Completed));
    s.add_operation(op("c", "c", OperationStatus::Failed));
    s.add_operation(op("d", "d", OperationStatus::Running));
    s.clear_completed_operations();
    let ids: Vec<&str> = s.scraping_operations.iter().map(|o| o.operation_id.as_str()).collect();
    assert_eq!(ids, vec!["a", "d"]);
}

#[test]
fn remove_operation_by_id() {
    let mut s = AppState::new();
    s.add_operation(op("a", "a", OperationStatus::Running));
    s.add_operation(op("b", "b", OperationStatus::Running));
    s.remove_operation(&"a".to_string());
    assert_eq!(s.scraping_operations.len(), 1);
    assert_eq!(s.scraping_operations[0].operation_id, "b");
    s.remove_operation(&"missing".to_string());
    assert_eq!(s.scraping_operations.len(), 1);
}

#[test]
fn create_todo_then_get_todos() {
    let mut s = AppState::new();
    s.create_todo("alice".to_string(), 50, 1, 10, None).unwrap();
    let todos = s.get_todos();
    assert_eq!(todos.len(), 1);
    assert_eq!(todos[0].target_account, "alice");
    assert_eq!(todos[0].target_count, 50);
    assert_eq!(todos[0].status, TodoStatus::Pending);
    assert!(todos[0].started_at.is_none());
    assert!(todos[0].completed_at.is_none());
    assert!(!todos[0].manually_completed);
    assert_eq!(todos[0].id.len(), 36);
    assert!(!todos[0].created_at.is_empty());
}

#[test]
fn create_todo_caches_preset_name() {
    let mut s = AppState::new();
    let pid = s.add_criteria_preset("Fitness".to_string(), "likes gyms".to_string()).unwrap();
    s.create_todo("alice".to_string(), 5, 1, 1, Some(pid.clone())).unwrap();
    s.create_todo("bob".to_string(), 5, 1, 1, Some("unknown".to_string())).unwrap();
    assert_eq!(s.todos[0].criteria_preset_id.as_deref(), Some(pid.as_str()));
    assert_eq!(s.todos[0].criteria_preset_name.as_deref(), Some("Fitness"));
    assert_eq!(s.todos[1].criteria_preset_name, None);
}

#[test]
fn update_todo_stamps_start_and_completion_once() {
    let mut s = AppState::new();
    s.add_todo(todo("t1", TodoStatus::Pending, false, None));
    let id = "t1".to_string();
    assert!(s.update_todo_at(&id, TodoStatus::Running, Some("op".to_string()), None, None, "T1".to_string()));
    assert_eq!(s.todos[0].started_at.as_deref(), Some("T1"));
    assert_eq!(s.todos[0].operation_id.as_deref(), Some("op"));
    s.update_todo_at(&id, TodoStatus::Running, None, None, None, "T2".to_string());
    assert_eq!(s.todos[0].started_at.as_deref(), Some("T1"));
    s.update_todo_at(&id, TodoStatus::Completed, None, None, None, "T3".to_string());
    assert_eq!(s.todos[0].completed_at.as_deref(), Some("T3"));
    s.update_todo_at(&id, TodoStatus::Failed, None, None, Some("e".to_string()), "T4".to_string());
    assert_eq!(s.todos[0].completed_at.as_deref(), Some("T3"));
    assert_eq!(s.todos[0].status, TodoStatus::Failed);
    assert_eq!(s.todos[0].error_message.as_deref(), Some("e"));
    assert!(!s.update_todo_at(&"nope".to_string(), TodoStatus::Failed, None, None, None, "T5".to_string()));
}

#[test]
fn update_todo_with_clock_stamps_running() {
    let mut s = AppState::new();
    s.add_todo(todo("t1", TodoStatus::Pending, false, None));
    assert!(s.update_todo(&"t1".to_string(), TodoStatus::Running, None, None, None));
    assert!(s.todos[0].started_at.is_some());
    assert!(s.todos[0].completed_at.is_none());
}

#[test]
fn set_todo_exec_id_records_it() {
    let mut s = AppState::new();
    s.add_todo(todo("t1", TodoStatus::Pending, false, None));
    assert!(s.set_todo_exec_id(&"t1".to_string(), "e9".to_string()));
    assert_eq!(s.todos[0].exec_id.as_deref(), Some("e9"));
}

#[test]
fn toggle_twice_restores_status() {
    let mut s = AppState::new();
    s.add_todo(todo("t1", TodoStatus::Pending, false, None));
    let id = "t1".to_string();
    assert!(s.toggle_todo_manual_complete(&id));
    assert_eq!(s.todos[0].status, TodoStatus::Completed);
    assert!(s.todos[0].manually_completed);
    assert!(s.todos[0].completed_at.is_some());
    assert!(s.toggle_todo_manual_complete(&id));
    assert_eq!(s.todos[0].status, TodoStatus::Pending);
    assert!(!s.todos[0].manually_completed);
    assert!(s.todos[0].completed_at.is_none());
}

#[test]
fn toggle_twice_from_manual_completion() {
    let mut s = AppState::new();
    s.add_todo(todo("t1", TodoStatus::Completed, true, Some("T0")));
    let id = "t1".to_string();
    s.toggle_todo_manual_complete_at(&id, "T1".to_string());
    s.toggle_todo_manual_complete_at(&id, "T2".to_string());
    assert_eq!(s.todos[0].status, TodoStatus::Completed);
    assert_eq!(s.todos[0].completed_at.as_deref(), Some("T2"));
    assert!(s.todos[0].manually_completed);
}

#[test]
fn toggle_unknown_todo_changes_nothing() {
    let mut s = AppState::new();
    s.add_todo(todo("t1", TodoStatus::Running, false, None));
    assert!(!s.toggle_todo_manual_complete(&"x".to_string()));
    assert_eq!(s.todos[0].status, TodoStatus::Running);
}

#[test]
fn delete_todo_removes_it() {
    let mut s = AppState::new();
    s.add_todo(todo("t1", TodoStatus::Pending, false, None));
    s.add_todo(todo("t2", TodoStatus::Pending, false, None));
    s.delete_todo(&"t1".to_string());
    assert_eq!(s.todos.len(), 1);
    assert_eq!(s.todos[0].id, "t2");
    s.delete_todo(&"t1".to_string());
    assert_eq!(s.todos.len(), 1);
}

#[test]
fn set_todo_preset_caches_name() {
    let mut s = AppState::new();
    let pid = s.add_criteria_preset_with("p1".to_string(), "Travel".to_string(), "c".to_string(), "T".to_string());
    assert_eq!(pid, "p1");
    s.add_todo(todo("t1", TodoStatus::Pending, false, None));
    assert!(s.set_todo_preset(&"t1".to_string(), Some("p1".to_string())));
    assert_eq!(s.todos[0].criteria_preset_name.as_deref(), Some("Travel"));
    assert!(s.set_todo_preset(&"t1".to_string(), None));
    assert_eq!(s.todos[0].criteria_preset_id, None);
    assert_eq!(s.todos[0].criteria_preset_name, None);
}

#[test]
fn preset_rename_and_edit_refresh_updated_at() {
    let mut s = AppState::new();
    s.add_criteria_preset_with("p1".to_string(), "A".to_string(), "c1".to_string(), "T0".to_string());
    assert!(s.rename_criteria_preset_at(&"p1".to_string(), "B".to_string(), "T1".to_string()));
    assert_eq!(s.saved_criteria[0].name, "B");
    assert_eq!(s.saved_criteria[0].updated_at, "T1");
    assert_eq!(s.saved_criteria[0].created_at, "T0");
    assert!(s.update_criteria_preset_at(&"p1".to_string(), "c2".to_string(), "T2".to_string()));
    assert_eq!(s.saved_criteria[0].criteria, "c2");
    assert_eq!(s.saved_criteria[0].updated_at, "T2");
    assert!(!s.rename_criteria_preset_at(&"zz".to_string(), "C".to_string(), "T3".to_string()));
    assert_eq!(s.saved_criteria[0].name, "B");
}

#[test]
fn preset_add_with_clock() {
    let mut s = AppState::new();
    let id = s.add_criteria_preset("N".to_string(), "C".to_string()).unwrap();
    assert_eq!(id.len(), 36);
    assert_eq!(s.saved_criteria[0].id, id);
    assert_eq!(s.saved_criteria[0].created_at, s.saved_criteria[0].updated_at);
    assert!(s.rename_criteria_preset(&id, "M".to_string()));
    assert!(s.update_criteria_preset(&id, "D".to_string()));
    assert_eq!(s.saved_criteria[0].name, "M");
    assert_eq!(s.saved_criteria[0].criteria, "D");
}

#[test]
fn deleting_active_preset_clears_selection() {
    let mut s = AppState::new();
    s.add_criteria_preset_with("p1".to_string(), "A".to_string(), "c".to_string(), "T".to_string());
    s.add_criteria_preset_with("p2".to_string(), "B".to_string(), "c".to_string(), "T".to_string());
    assert_eq!(s.set_active_criteria(Some("p1".to_string())), Ok(()));
    s.delete_criteria_preset(&"p2".to_string());
    assert_eq!(s.active_criteria_id.as_deref(), Some("p1"));
    s.delete_criteria_preset(&"p1".to_string());
    assert_eq!(s.active_criteria_id, None);
    assert!(s.saved_criteria.is_empty());
}

#[test]
fn set_active_unknown_preset_fails() {
    let mut s = AppState::new();
    s.add_criteria_preset_with("p1".to_string(), "A".to_string(), "c".to_string(), "T".to_string());
    s.set_active_criteria(Some("p1".to_string())).unwrap();
    let r = s.set_active_criteria(Some("nope".to_string()));
    assert_eq!(r, Err(StoreError::PresetNotFound));
    assert_eq!(r.unwrap_err().message(), "Criteria preset not found");
    assert_eq!(s.active_criteria_id.as_deref(), Some("p1"));
    assert_eq!(s.set_active_criteria(None), Ok(()));
    assert_eq!(s.active_criteria_id, None);
}

#[test]
fn preset_lookup_and_name() {
    let mut s = AppState::new();
    s.add_criteria_preset_with("p1".to_string(), "A".to_string(), "c".to_string(), "T".to_string());
    assert_eq!(s.find_preset(&"p1".to_string()).unwrap().name, "A");
    assert_eq!(s.preset_name(&Some("p1".to_string())).as_deref(), Some("A"));
    assert_eq!(s.preset_name(&Some("p9".to_string())), None);
    assert_eq!(s.preset_name(&None), None);
}

#[test]
fn toggle_twice_from_running_gives_pending() {
    let mut s = AppState::new();
    s.add_todo(todo("t1", TodoStatus::Running, false, None));
    let id = "t1".to_string();
    s.toggle_todo_manual_complete_at(&id, "T1".to_string());
    s.toggle_todo_manual_complete_at(&id, "T2".to_string());
    assert_eq!(s.todos[0].status, TodoStatus::Pending);
    assert!(s.todos[0].completed_at.is_none());
}

#[test]
fn created_ids_are_distinct() {
    let mut s = AppState::new();
    for _ in 0..20 {
        s.create_todo("alice".to_string(), 1, 1, 1, None).unwrap();
        s.add_criteria_preset("n".to_string(), "c".to_string()).unwrap();
    }
    for i in 0..s.todos.len() {
        for j in 0..i {
            assert_ne!(s.todos[i].id, s.todos[j].id);
            assert_ne!(s.saved_criteria[i].id, s.saved_criteria[j].id);
        }
    }
    assert_eq!(StoreError::IdClash.message(), "Could not generate a unique id");
}
