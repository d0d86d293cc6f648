use nutext::error::CommandError;
use nutext::session::{slot_name, RecordFault, SessionContext, SessionStore};

fn context(dir: &str, name: &str) -> SessionContext {
    SessionContext { base_dir: dir.to_string(), catalog_name: name.to_string() }
}

fn text(name: &str, value: &str) -> (String, Option<String>) {
    (name.to_string(), Some(value.to_string()))
}

#[test]
fn load_from_empty_store_is_not_registered() {
    let store = SessionStore::new();
    assert_eq!(store.load(), Err(CommandError::NotRegistered));
    assert!(!store.is_registered());
}

#[test]
fn load_returns_what_was_stored() {
    let mut store = SessionStore::new();
    store.store(context("locales", "app"));
    assert!(store.is_registered());
    assert_eq!(store.load(), Ok(context("locales", "app")));
}

#[test]
fn store_is_last_write_wins() {
    let mut store = SessionStore::new();
    store.store(context("a", "one"));
    store.store(context("b", "two"));
    assert_eq!(store.load(), Ok(context("b", "two")));
}

#[test]
fn load_does_not_empty_the_slot() {
    let mut store = SessionStore::new();
    store.store(context("a", "one"));
    assert_eq!(store.load(), Ok(context("a", "one")));
    assert_eq!(store.load(), Ok(context("a", "one")));
}

#[test]
fn slot_has_its_fixed_name() {
    assert_eq!(slot_name(), "NUTEXT_FILES");
}

#[test]
fn record_has_exactly_path_and_name() {
    let fields = context("/srv/locales", "app").to_record();
    assert_eq!(fields, vec![text("path", "/srv/locales"), text("name", "app")]);
}

#[test]
fn record_reads_back() {
    let stored = context("/srv/locales", "app");
    assert_eq!(SessionContext::from_record(&stored.to_record()), Ok(stored));
}

#[test]
fn record_fields_may_come_in_any_order() {
    let fields = vec![text("name", "app"), text("extra", "x"), text("path", "dir")];
    assert_eq!(SessionContext::from_record(&fields), Ok(context("dir", "app")));
}

#[test]
fn record_takes_the_last_field_of_a_name() {
    let fields = vec![text("path", "old"), text("name", "app"), text("path", "new")];
    assert_eq!(SessionContext::from_record(&fields), Ok(context("new", "app")));
}

#[test]
fn record_without_path_is_faulty() {
    let fields = vec![text("name", "app")];
    assert_eq!(SessionContext::from_record(&fields), Err(RecordFault::MissingPath));
    assert_eq!(SessionContext::from_record(&Vec::new()), Err(RecordFault::MissingPath));
}

#[test]
fn record_without_name_is_faulty() {
    let fields = vec![text("path", "dir")];
    assert_eq!(SessionContext::from_record(&fields), Err(RecordFault::MissingName));
}

#[test]
fn record_with_other_than_text_is_faulty() {
    let fields = vec![("path".to_string(), None), text("name", "app")];
    assert_eq!(SessionContext::from_record(&fields), Err(RecordFault::PathNotText));
    let fields = vec![text("path", "dir"), ("name".to_string(), None)];
    assert_eq!(SessionContext::from_record(&fields), Err(RecordFault::NameNotText));
}

#[test]
fn record_path_is_looked_at_first() {
    let fields = vec![("path".to_string(), None), ("name".to_string(), None)];
    assert_eq!(SessionContext::from_record(&fields), Err(RecordFault::PathNotText));
}

#[test]
fn record_fault_names_its_field() {
    assert_eq!(RecordFault::MissingPath.field(), "path");
    assert_eq!(RecordFault::PathNotText.field(), "path");
    assert_eq!(RecordFault::MissingName.field(), "name");
    assert_eq!(RecordFault::NameNotText.field(), "name");
}

#[test]
fn record_fault_says_what_is_wrong() {
    assert_eq!(RecordFault::MissingPath.message(), "The stored context has no field `path`.");
    assert_eq!(
        RecordFault::PathNotText.message(),
        "The field `path` of the stored context is no text."
    );
    assert_eq!(RecordFault::MissingName.message(), "The stored context has no field `name`.");
    assert_eq!(
        RecordFault::NameNotText.message(),
        "The field `name` of the stored context is no text."
    );
}
