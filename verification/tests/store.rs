use daily_pages::error::StoreError;
use daily_pages::page::Page;
use daily_pages::store::PageStore;

fn page(date: &str, happiness: i64) -> Page {
    Page {
        date: date.to_string(),
        schedule: format!("schedule for {date}"),
        todo: format!("todo for {date}"),
        goals: format!("goals for {date}"),
        motivation: format!("motivation for {date}"),
        happiness,
        journal: format!("journal for {date}"),
    }
}

fn fresh_store() -> PageStore {
    let mut store = PageStore::open_in_memory().expect("open in-memory database");
    store.ensure_schema().expect("create schema");
    store
}

#[test]
fn get_absent_on_empty_store() {
    let store = fresh_store();
    let found = store.get("2099-01-01").expect("lookup");
    assert!(found.is_none());
}

#[test]
fn round_trip_all_fields() {
    let mut store = fresh_store();
    let p = page("2024-03-15", 5);
    store.upsert(&p).expect("save");
    let found = store.get("2024-03-15").expect("lookup").expect("present");
    assert_eq!(found, p);
}

#[test]
fn round_trip_boundary_happiness_low() {
    let mut store = fresh_store();
    let p = page("2024-01-01", 1);
    store.upsert(&p).expect("save");
    let found = store.get("2024-01-01").expect("lookup").expect("present");
    assert_eq!(found, p);
    assert_eq!(found.happiness, 1);
}

#[test]
fn round_trip_boundary_happiness_high() {
    let mut store = fresh_store();
    let p = page("2024-01-02", 10);
    store.upsert(&p).expect("save");
    let found = store.get("2024-01-02").expect("lookup").expect("present");
    assert_eq!(found, p);
    assert_eq!(found.happiness, 10);
}

#[test]
fn round_trip_empty_text_fields() {
    let mut store = fresh_store();
    let p = Page {
        date: "2024-06-30".to_string(),
        schedule: String::new(),
        todo: String::new(),
        goals: String::new(),
        motivation: String::new(),
        happiness: 5,
        journal: String::new(),
    };
    store.upsert(&p).expect("save");
    let found = store.get("2024-06-30").expect("lookup").expect("present");
    assert_eq!(found, p);
}

#[test]
fn save_does_not_affect_other_date() {
    let mut store = fresh_store();
    let p2 = page("2024-04-02", 6);
    store.upsert(&p2).expect("save second date");
    let p1 = page("2024-04-01", 3);
    store.upsert(&p1).expect("save first date");
    let found = store.get("2024-04-02").expect("lookup").expect("present");
    assert_eq!(found, p2);
    assert!(store.get("2024-04-03").expect("lookup").is_none());
}

#[test]
fn upsert_idempotent() {
    let mut store = fresh_store();
    let p = page("2024-05-10", 8);
    store.upsert(&p).expect("first save");
    store.upsert(&p).expect("second save");
    let found = store.get("2024-05-10").expect("lookup").expect("present");
    assert_eq!(found, p);
}

#[test]
fn upsert_overwrites_all_fields() {
    let mut store = fresh_store();
    let p1 = page("2024-05-11", 2);
    store.upsert(&p1).expect("first save");
    let p2 = Page {
        date: "2024-05-11".to_string(),
        schedule: "rewritten schedule".to_string(),
        todo: String::new(),
        goals: "rewritten goals".to_string(),
        motivation: String::new(),
        happiness: 9,
        journal: "rewritten journal".to_string(),
    };
    store.upsert(&p2).expect("second save");
    let found = store.get("2024-05-11").expect("lookup").expect("present");
    assert_eq!(found, p2);
    assert_ne!(found.schedule, p1.schedule);
    assert_eq!(found.todo, "");
    assert_eq!(found.motivation, "");
}

#[test]
fn schema_init_twice_keeps_rows() {
    let mut store = fresh_store();
    let p = page("2024-02-20", 4);
    store.upsert(&p).expect("save");
    store.ensure_schema().expect("schema again");
    store.ensure_schema().expect("schema a third time");
    let found = store.get("2024-02-20").expect("lookup").expect("present");
    assert_eq!(found, p);
}

#[test]
fn scenario_save_then_get_exact_record() {
    let mut store = fresh_store();
    let p = Page {
        date: "2024-05-01".to_string(),
        schedule: "9am standup".to_string(),
        todo: String::new(),
        goals: "ship v1".to_string(),
        motivation: String::new(),
        happiness: 7,
        journal: "good day".to_string(),
    };
    store.upsert(&p).expect("save");
    let found = store.get("2024-05-01").expect("lookup").expect("present");
    assert_eq!(found, p);
    assert_eq!(found.date, "2024-05-01");
    assert_eq!(found.schedule, "9am standup");
    assert_eq!(found.todo, "");
    assert_eq!(found.goals, "ship v1");
    assert_eq!(found.motivation, "");
    assert_eq!(found.happiness, 7);
    assert_eq!(found.journal, "good day");
    assert!(store.get("2024-05-02").expect("lookup").is_none());
}

#[test]
fn open_unreachable_path_is_connection_error() {
    let result = PageStore::open("/nonexistent-dir-for-daily-pages/sub/core.sqlite3");
    match result {
        Err(StoreError::Connection(message)) => assert!(!message.is_empty()),
        Err(other) => panic!("unexpected error variant: {}", other.message()),
        Ok(_) => panic!("opening under a missing directory must fail"),
    }
}

#[test]
fn lookup_is_case_sensitive_exact_match() {
    let mut store = fresh_store();
    let p = page("2024-07-04", 6);
    store.upsert(&p).expect("save");
    assert!(store.get("2024-07-4").expect("lookup").is_none());
    assert!(store.get(" 2024-07-04").expect("lookup").is_none());
    assert!(store.get("2024-07-04").expect("lookup").is_some());
}
