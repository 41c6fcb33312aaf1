use serde_json::Value;
use task_store::creates::{create, ItemTypes, TaskStatus};
use task_store::json_file::{get_one, StoreError};

fn item_object(title: &str, status: &str) -> Value {
    let mut m = serde_json::Map::new();
    m.insert("title".to_string(), Value::String(title.to_string()));
    m.insert("status".to_string(), Value::String(status.to_string()));
    Value::Object(m)
}

#[test]
fn create_pending_displays_title_and_persists() {
    let (item, content) =
        create(Err("no file".to_string()), "shopping", TaskStatus::PENDING).unwrap();
    assert!(matches!(item, ItemTypes::Pending(_)));
    assert_eq!(item.display_text(), "shopping");
    let fetched = get_one(Ok(content), "shopping").unwrap();
    assert_eq!(fetched, item_object("shopping", "PENDING"));
}

#[test]
fn create_done_displays_title_and_persists() {
    let (item, content) = create(Err("no file".to_string()), "laundry", TaskStatus::DONE).unwrap();
    assert!(matches!(item, ItemTypes::Done(_)));
    assert_eq!(item.display_text(), "laundry");
    let fetched = get_one(Ok(content), "laundry").unwrap();
    assert_eq!(fetched, item_object("laundry", "DONE"));
}

#[test]
fn create_adds_to_existing_content() {
    let (_, first) = create(Err("no file".to_string()), "shopping", TaskStatus::PENDING).unwrap();
    let (_, second) = create(Ok(first), "laundry", TaskStatus::DONE).unwrap();
    assert_eq!(
        get_one(Ok(second.clone()), "shopping").unwrap(),
        item_object("shopping", "PENDING")
    );
    assert_eq!(
        get_one(Ok(second.clone()), "laundry").unwrap(),
        item_object("laundry", "DONE")
    );
    let err = get_one(Ok(second), "ironing").unwrap_err();
    assert!(matches!(err, StoreError::NotFoundError(_)));
}
