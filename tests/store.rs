use todo_service::models::{Todo, TodoError, TodoUpdateRequest};
use todo_service::store::TodoStore;

fn todo(id: i32, value: &str, checked: bool) -> Todo {
    Todo { id, value: value.to_string(), checked }
}

fn ids(todos: &[Todo]) -> Vec<i32> {
    todos.iter().map(|t| t.id).collect()
}

#[test]
fn new_store_is_empty() {
    let store = TodoStore::new();
    assert!(store.get_all().is_empty());
    assert!(store.get_by_id(1).is_none());
}

#[test]
fn example_scenario() {
    let mut store = TodoStore::new();
    let milk = todo(1, "Buy milk", false);
    let created = store.insert(milk.clone()).unwrap();
    assert_eq!(created, milk);

    assert_eq!(store.insert(todo(1, "x", true)).unwrap_err(), TodoError::Conflict(1));
    assert_eq!(store.get_by_id(1), Some(milk));

    let updated = store
        .update(1, TodoUpdateRequest { value: None, checked: Some(true) })
        .unwrap();
    assert_eq!(updated, todo(1, "Buy milk", true));

    assert_eq!(store.delete(1), Ok(true));
    assert_eq!(store.delete(1), Err(TodoError::NotFound(1)));
}

#[test]
fn duplicate_insert_keeps_first_record() {
    let mut store = TodoStore::new();
    store.insert(todo(7, "first", false)).unwrap();
    store.insert(todo(8, "other", true)).unwrap();
    assert_eq!(store.insert(todo(7, "second", true)), Err(TodoError::Conflict(7)));
    let all = store.get_all();
    assert_eq!(ids(&all), vec![7, 8]);
    assert_eq!(all[0].value, "first");
    assert!(!all[0].checked);
}

#[test]
fn update_only_checked_keeps_value() {
    let mut store = TodoStore::new();
    store.insert(todo(3, "Dentist", false)).unwrap();
    let r = store.update(3, TodoUpdateRequest { value: None, checked: Some(true) }).unwrap();
    assert_eq!(r.value, "Dentist");
    assert!(r.checked);
    assert!(store.get_by_id(3).unwrap().checked);
}

#[test]
fn update_only_value_keeps_checked() {
    let mut store = TodoStore::new();
    store.insert(todo(3, "Dentist", true)).unwrap();
    let r = store
        .update(3, TodoUpdateRequest { value: Some("Dentist at 14.00".to_string()), checked: None })
        .unwrap();
    assert_eq!(r.value, "Dentist at 14.00");
    assert!(r.checked);
    assert_eq!(store.get_by_id(3).unwrap().value, "Dentist at 14.00");
}

#[test]
fn update_with_no_fields_returns_current_record() {
    let mut store = TodoStore::new();
    store.insert(todo(5, "Walk", true)).unwrap();
    let r = store.update(5, TodoUpdateRequest { value: None, checked: None }).unwrap();
    assert_eq!(r.id, 5);
    assert_eq!(r.value, "Walk");
    assert!(r.checked);
    let all = store.get_all();
    assert_eq!(all.len(), 1);
    assert_eq!(all[0].value, "Walk");
}

#[test]
fn update_both_fields() {
    let mut store = TodoStore::new();
    store.insert(todo(2, "a", false)).unwrap();
    let r = store
        .update(2, TodoUpdateRequest { value: Some("b".to_string()), checked: Some(true) })
        .unwrap();
    assert_eq!(r.value, "b");
    assert!(r.checked);
}

#[test]
fn never_inserted_id_is_not_found() {
    let mut store = TodoStore::new();
    store.insert(todo(1, "one", false)).unwrap();
    assert!(store.get_by_id(9).is_none());
    assert_eq!(
        store.update(9, TodoUpdateRequest { value: Some("z".to_string()), checked: None }),
        Err(TodoError::NotFound(9))
    );
    assert_eq!(store.delete(9), Err(TodoError::NotFound(9)));
    assert_eq!(ids(&store.get_all()), vec![1]);
}

#[test]
fn deleted_id_is_not_found() {
    let mut store = TodoStore::new();
    store.insert(todo(4, "four", false)).unwrap();
    assert_eq!(store.delete(4), Ok(true));
    assert!(store.get_by_id(4).is_none());
    assert_eq!(
        store.update(4, TodoUpdateRequest { value: None, checked: Some(true) }),
        Err(TodoError::NotFound(4))
    );
    assert_eq!(store.delete(4), Err(TodoError::NotFound(4)));
}

#[test]
fn list_after_delete_keeps_insertion_order() {
    let mut store = TodoStore::new();
    store.insert(todo(1, "one", false)).unwrap();
    store.insert(todo(2, "two", false)).unwrap();
    store.insert(todo(3, "three", true)).unwrap();
    assert_eq!(store.delete(2), Ok(true));
    let all = store.get_all();
    assert_eq!(ids(&all), vec![1, 3]);
    assert_eq!(all[0].value, "one");
    assert_eq!(all[1].value, "three");
}

#[test]
fn distinct_inserts_all_succeed() {
    let mut store = TodoStore::new();
    let n: i32 = 50;
    for k in 0..n {
        let id = (k * 37) % n - 10;
        assert_eq!(store.insert(todo(id, "t", k % 2 == 0)).unwrap().id, id);
    }
    let all = store.get_all();
    assert_eq!(all.len(), n as usize);
    let mut seen = ids(&all);
    seen.sort();
    seen.dedup();
    assert_eq!(seen.len(), n as usize);
}

#[test]
fn negative_and_extreme_ids_are_plain_keys() {
    let mut store = TodoStore::new();
    store.insert(todo(i32::MIN, "min", false)).unwrap();
    store.insert(todo(i32::MAX, "max", true)).unwrap();
    store.insert(todo(0, "zero", false)).unwrap();
    assert_eq!(store.get_by_id(i32::MIN).unwrap().value, "min");
    assert_eq!(store.get_by_id(i32::MAX).unwrap().value, "max");
    assert_eq!(store.insert(todo(0, "again", true)), Err(TodoError::Conflict(0)));
}

#[test]
fn error_status_codes() {
    assert_eq!(TodoError::NotFound(1).status_code(), 404);
    assert_eq!(TodoError::Conflict(1).status_code(), 409);
    assert_eq!(TodoError::NotFound(12).id(), 12);
    assert_eq!(TodoError::Conflict(-3).id(), -3);
}

#[test]
fn clone_copies_fields() {
    let t = todo(11, "copy me", true);
    let c = t.clone();
    assert_eq!(c.id, 11);
    assert_eq!(c.value, "copy me");
    assert!(c.checked);
    let req = TodoUpdateRequest { value: Some("v".to_string()), checked: None };
    let rc = req.clone();
    assert_eq!(rc.value.as_deref(), Some("v"));
    assert_eq!(rc.checked, None);
}
