use serde_json::Value;
use task_store::collection::Collection;
use task_store::json_file::{delete_one, get_all, get_one, save_all, save_one, StoreError};

fn object(pairs: &[(&str, Value)]) -> Value {
    let mut m = serde_json::Map::new();
    for (k, v) in pairs {
        m.insert((*k).to_string(), v.clone());
    }
    Value::Object(m)
}

fn task(title: &str, status: &str) -> Value {
    object(&[
        ("title", Value::String(title.to_string())),
        ("status", Value::String(status.to_string())),
    ])
}

#[test]
fn round_trip_restores_every_entry() {
    let mut tasks = Collection::new();
    tasks.insert("1".to_string(), task("shopping", "pending"));
    tasks.insert("2".to_string(), task("laundry", "done"));
    tasks.insert("3".to_string(), Value::Null);
    let content = save_all(&tasks).unwrap();
    let loaded = get_all(Ok(content)).unwrap();
    assert_eq!(loaded.len(), 3);
    assert_eq!(loaded.get("1"), Some(&task("shopping", "pending")));
    assert_eq!(loaded.get("2"), Some(&task("laundry", "done")));
    assert_eq!(loaded.get("3"), Some(&Value::Null));
}

#[test]
fn round_trip_of_empty_collection() {
    let tasks = Collection::new();
    let content = save_all(&tasks).unwrap();
    let loaded = get_all(Ok(content)).unwrap();
    assert_eq!(loaded.len(), 0);
}

#[test]
fn save_one_twice_is_idempotent() {
    let item = task("shopping", "pending");
    let first = save_one(Err("no file".to_string()), "a", &item).unwrap();
    let second = save_one(Ok(first.clone()), "a", &item).unwrap();
    let after_first = get_all(Ok(first)).unwrap();
    let after_second = get_all(Ok(second)).unwrap();
    assert_eq!(after_first.len(), after_second.len());
    assert_eq!(after_first.get("a"), after_second.get("a"));
}

#[test]
fn save_one_overwrites_and_keeps_size() {
    let x = task("shopping", "pending");
    let y = task("shopping", "done");
    let first = save_one(Err("no file".to_string()), "a", &x).unwrap();
    assert_eq!(get_one(Ok(first.clone()), "a").unwrap(), x);
    let second = save_one(Ok(first.clone()), "a", &y).unwrap();
    assert_eq!(get_one(Ok(second.clone()), "a").unwrap(), y);
    let before = get_all(Ok(first)).unwrap();
    let after = get_all(Ok(second)).unwrap();
    assert_eq!(before.len(), after.len());
}

#[test]
fn get_one_missing_key_is_not_found() {
    let content = save_one(Err("no file".to_string()), "a", &Value::Bool(true)).unwrap();
    let err = get_one(Ok(content), "b").unwrap_err();
    assert!(matches!(err, StoreError::NotFoundError(id) if id == "b"));
}

#[test]
fn delete_one_missing_key_is_a_noop() {
    let item = task("shopping", "pending");
    let content = save_one(Err("no file".to_string()), "a", &item).unwrap();
    let after = delete_one(Ok(content.clone()), "b").unwrap();
    let before_map = get_all(Ok(content)).unwrap();
    let after_map = get_all(Ok(after)).unwrap();
    assert_eq!(before_map.len(), after_map.len());
    assert_eq!(after_map.get("a"), Some(&item));
    assert_eq!(before_map.get("a"), Some(&item));
}

#[test]
fn fresh_file_bootstrap_has_sole_entry() {
    let item = task("shopping", "pending");
    let content = save_one(Err("file does not exist".to_string()), "x", &item).unwrap();
    let loaded = get_all(Ok(content)).unwrap();
    assert_eq!(loaded.len(), 1);
    assert_eq!(loaded.get("x"), Some(&item));
}

#[test]
fn empty_content_fails_to_load_but_save_self_heals() {
    let err = get_all(Ok(String::new())).unwrap_err();
    assert!(matches!(err, StoreError::FormatError(_)));
    let content = save_one(Ok(String::new()), "x", &Value::Bool(false)).unwrap();
    let loaded = get_all(Ok(content)).unwrap();
    assert_eq!(loaded.len(), 1);
}

#[test]
fn unparsable_content_fails_to_load() {
    let err = get_all(Ok("not json at all".to_string())).unwrap_err();
    assert!(matches!(err, StoreError::FormatError(_)));
    let err = get_one(Ok("[1, 2, 3]".to_string()), "a").unwrap_err();
    assert!(matches!(err, StoreError::FormatError(_)));
}

#[test]
fn read_failure_is_an_io_error() {
    let err = get_all(Err("permission denied".to_string())).unwrap_err();
    assert!(matches!(err, StoreError::IOError(m) if m == "permission denied"));
    let err = get_one(Err("permission denied".to_string()), "a").unwrap_err();
    assert!(matches!(err, StoreError::IOError(_)));
}

#[test]
fn hand_written_content_loads() {
    let content = "{\"a\": 1, \"b\": {\"title\": \"laundry\"}}".to_string();
    let loaded = get_all(Ok(content.clone())).unwrap();
    assert_eq!(loaded.len(), 2);
    assert_eq!(
        loaded.get("a"),
        Some(&Value::Number(serde_json::Number::from(1)))
    );
    assert_eq!(get_one(Ok(content), "b").unwrap(), object(&[("title", Value::String("laundry".to_string()))]));
}

#[test]
fn scenario_two_saves_get_delete_load() {
    let shopping = task("shopping", "pending");
    let laundry = task("laundry", "done");
    let c1 = save_one(Err("no file".to_string()), "1", &shopping).unwrap();
    let c2 = save_one(Ok(c1), "2", &laundry).unwrap();
    assert_eq!(get_one(Ok(c2.clone()), "1").unwrap(), shopping);
    let c3 = delete_one(Ok(c2), "1").unwrap();
    let remaining = get_all(Ok(c3)).unwrap();
    assert_eq!(remaining.len(), 1);
    assert_eq!(remaining.get("2"), Some(&laundry));
    assert_eq!(remaining.get("1"), None);
}

#[test]
fn collection_operations() {
    let mut c = Collection::new();
    assert_eq!(c.len(), 0);
    assert!(!c.contains_key("a"));
    c.insert("a".to_string(), Value::Bool(true));
    c.insert("b".to_string(), Value::Null);
    assert_eq!(c.len(), 2);
    assert!(c.contains_key("a"));
    c.insert("a".to_string(), Value::Bool(false));
    assert_eq!(c.len(), 2);
    assert_eq!(c.get("a"), Some(&Value::Bool(false)));
    c.remove("a");
    assert_eq!(c.len(), 1);
    assert_eq!(c.get("a"), None);
    c.remove("missing");
    assert_eq!(c.len(), 1);
    assert_eq!(c.items().len(), 1);
    assert_eq!(c.items()[0].0, "b");
}
