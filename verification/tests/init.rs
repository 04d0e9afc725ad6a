use expense_tracker::{init_datastore, DATASTORE_PATH, EMPTY_DATASTORE};

#[test]
fn datastore_lies_at_a_fixed_relative_path() {
    assert_eq!(DATASTORE_PATH, "datastore.json");
    assert_eq!(EMPTY_DATASTORE, "[]");
}

#[test]
fn init_creates_a_missing_datastore_as_an_empty_one() {
    let plan = init_datastore(DATASTORE_PATH, false);
    assert_eq!(plan.create.as_deref(), Some("[]"));
    assert_eq!(plan.message, "Datastore initialized at 'datastore.json'");
}

#[test]
fn init_leaves_a_datastore_that_exists() {
    let plan = init_datastore(DATASTORE_PATH, true);
    assert_eq!(plan.create, None);
    assert_eq!(plan.message, "Reading from datastore at 'datastore.json'");
}

#[test]
fn init_names_the_path_it_was_given() {
    assert_eq!(init_datastore("", true).message, "Reading from datastore at ''");
    assert_eq!(
        init_datastore("/tmp/my store.json", false).message,
        "Datastore initialized at '/tmp/my store.json'"
    );
}

fn run_init(file: Option<String>) -> Option<String> {
    let plan = init_datastore(DATASTORE_PATH, file.is_some());
    match plan.create {
        Some(contents) => Some(contents),
        None => file,
    }
}

#[test]
fn init_twice_changes_nothing_the_second_time() {
    let once = run_init(None);
    assert_eq!(once.as_deref(), Some("[]"));
    assert_eq!(run_init(once.clone()), once);

    let stored = Some("[{\"id\":1,\"description\":\"Coffee\",\"amount\":3.5}]".to_string());
    let once = run_init(stored.clone());
    assert_eq!(once, stored);
    assert_eq!(run_init(once), stored);

    let broken = Some("not a datastore".to_string());
    assert_eq!(run_init(broken.clone()), broken);
}
