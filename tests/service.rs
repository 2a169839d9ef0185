use todo_service::endpoints::{
    add, add_at, all, edit, edit_at, remove, single, toggle, toggle_at, CREATED, NOT_FOUND,
    NO_CONTENT, OK,
};
use todo_service::json::{push_decimal, push_json_string};
use todo_service::store::Store;
use todo_service::timestamp::Timestamp;
use todo_service::todo::{SetTodo, Todo};

fn at(secs: i64) -> Timestamp {
    Timestamp::from_parts(secs, 0).unwrap()
}

fn set(title: &str, content: &str) -> SetTodo {
    SetTodo { title: title.to_string(), content: content.to_string() }
}

fn seeded() -> Store {
    let mut store = Store::new();
    let r = add_at(&mut store, set("First", "Test"), at(0));
    assert_eq!(r.status, CREATED);
    store
}

#[test]
fn listing_empty_store_is_no_content() {
    let store = Store::new();
    let r = all(&store);
    assert_eq!(r.status, NO_CONTENT);
    assert_eq!(r.body, "");
    assert!(r.location.is_none());
}

#[test]
fn listing_gives_records_in_order() {
    let mut store = seeded();
    add_at(&mut store, set("A", "B"), at(1_700_000_000));
    let r = all(&store);
    assert_eq!(r.status, OK);
    assert_eq!(
        r.body,
        "[{\"id\":1,\"title\":\"First\",\"content\":\"Test\",\"done\":false,\
         \"created_at\":\"1970-01-01T00:00:00+00:00\",\"updated_at\":null},\
         {\"id\":2,\"title\":\"A\",\"content\":\"B\",\"done\":false,\
         \"created_at\":\"2023-11-14T22:13:20+00:00\",\"updated_at\":null}]"
    );
    assert_eq!(store.list().len(), 2);
}

#[test]
fn created_record_is_found_at_its_location() {
    let mut store = seeded();
    let r = add(&mut store, set("A", "B"));
    assert_eq!(r.status, CREATED);
    assert_eq!(r.location.as_deref(), Some("/2"));
    assert_eq!(r.body, "");
    let t = store.get(2).unwrap();
    assert_eq!(t.id, 2);
    assert_eq!(t.title, "A");
    assert_eq!(t.content, "B");
    assert!(!t.done);
    assert!(t.updated_at.is_none());
}

#[test]
fn identity_follows_last_record_after_delete() {
    let mut store = seeded();
    let r = add(&mut store, set("A", "B"));
    assert_eq!(r.location.as_deref(), Some("/2"));
    assert_eq!(remove(&mut store, 2).status, NO_CONTENT);
    let r = add(&mut store, set("C", "D"));
    assert_eq!(r.location.as_deref(), Some("/2"));
    assert_eq!(store.get(2).unwrap().title, "C");
}

#[test]
fn identity_follows_last_record_not_largest_ever() {
    let mut store = seeded();
    add(&mut store, set("A", "B"));
    add(&mut store, set("C", "D"));
    assert_eq!(remove(&mut store, 3).status, NO_CONTENT);
    assert_eq!(remove(&mut store, 2).status, NO_CONTENT);
    let r = add(&mut store, set("E", "F"));
    assert_eq!(r.location.as_deref(), Some("/2"));
}

#[test]
fn update_changes_text_and_marks_time() {
    let mut store = seeded();
    let r = edit_at(&mut store, 1, set("New", "Body"), at(50));
    assert_eq!(r.status, NO_CONTENT);
    assert_eq!(r.location.as_deref(), Some("/1"));
    assert_eq!(r.body, "");
    let t = store.get(1).unwrap();
    assert_eq!(t.id, 1);
    assert_eq!(t.title, "New");
    assert_eq!(t.content, "Body");
    assert!(!t.done);
    assert_eq!(t.created_at, at(0));
    assert_eq!(t.updated_at, Some(at(50)));
}

#[test]
fn update_now_sets_update_time() {
    let mut store = Store::new();
    add(&mut store, set("A", "B"));
    let r = edit(&mut store, 1, set("C", "D"));
    assert_eq!(r.status, NO_CONTENT);
    let t = store.get(1).unwrap();
    assert_eq!(t.title, "C");
    let u = t.updated_at.unwrap();
    let c = t.created_at;
    assert!((c.secs(), c.nanos()) <= (u.secs(), u.nanos()));
}

#[test]
fn toggling_twice_restores_done() {
    let mut store = seeded();
    assert_eq!(toggle_at(&mut store, 1, at(10)).status, NO_CONTENT);
    let t = store.get(1).unwrap();
    assert!(t.done);
    assert_eq!(t.updated_at, Some(at(10)));
    assert_eq!(toggle_at(&mut store, 1, at(20)).status, NO_CONTENT);
    let t = store.get(1).unwrap();
    assert!(!t.done);
    assert_eq!(t.updated_at, Some(at(20)));
    assert_eq!(toggle(&mut store, 1).status, NO_CONTENT);
    assert!(store.get(1).unwrap().done);
}

#[test]
fn missing_identity_is_not_found_and_changes_nothing() {
    let mut store = seeded();
    let before = all(&store).body;
    let r = remove(&mut store, 9);
    assert_eq!((r.status, r.body.as_str(), r.location.is_none()), (NOT_FOUND, "", true));
    let r = edit(&mut store, 9, set("X", "Y"));
    assert_eq!((r.status, r.body.as_str(), r.location.is_none()), (NOT_FOUND, "", true));
    let r = toggle(&mut store, 9);
    assert_eq!((r.status, r.body.as_str(), r.location.is_none()), (NOT_FOUND, "", true));
    let r = single(&store, 9);
    assert_eq!((r.status, r.body.as_str(), r.location.is_none()), (NOT_FOUND, "", true));
    assert_eq!(all(&store).body, before);
}

#[test]
fn seeded_scenario() {
    let mut store = seeded();
    let r = add_at(&mut store, set("A", "B"), at(100));
    assert_eq!(r.status, CREATED);
    assert_eq!(r.location.as_deref(), Some("/2"));
    let r = single(&store, 2);
    assert_eq!(r.status, OK);
    assert_eq!(
        r.body,
        "{\"id\":2,\"title\":\"A\",\"content\":\"B\",\"done\":false,\
         \"created_at\":\"1970-01-01T00:01:40+00:00\",\"updated_at\":null}"
    );
    assert_eq!(toggle_at(&mut store, 2, at(200)).status, NO_CONTENT);
    let r = single(&store, 2);
    assert_eq!(
        r.body,
        "{\"id\":2,\"title\":\"A\",\"content\":\"B\",\"done\":true,\
         \"created_at\":\"1970-01-01T00:01:40+00:00\",\
         \"updated_at\":\"1970-01-01T00:03:20+00:00\"}"
    );
    assert_eq!(remove(&mut store, 1).status, NO_CONTENT);
    assert_eq!(single(&store, 1).status, NOT_FOUND);
    let r = all(&store);
    assert_eq!(r.status, OK);
    let list = store.list();
    assert_eq!(list.len(), 1);
    assert_eq!(list[0].id, 2);
    assert!(r.body.starts_with("[{\"id\":2,"));
    assert!(r.body.ends_with("}]"));
}

#[test]
fn strings_are_escaped_as_json() {
    let mut out = String::new();
    push_json_string(&mut out, "a\"b\\c\nd\te\u{1}f\u{8}\u{c}\r\u{1f}é");
    assert_eq!(out, "\"a\\\"b\\\\c\\nd\\te\\u0001f\\b\\f\\r\\u001fé\"");
}

#[test]
fn record_json_escapes_text() {
    let t = Todo::new_at(7, "say \"hi\"".to_string(), "a\\b".to_string(), at(0));
    assert_eq!(
        t.to_json(),
        "{\"id\":7,\"title\":\"say \\\"hi\\\"\",\"content\":\"a\\\\b\",\"done\":false,\
         \"created_at\":\"1970-01-01T00:00:00+00:00\",\"updated_at\":null}"
    );
}

#[test]
fn decimal_of_extremes() {
    let mut out = String::new();
    push_decimal(&mut out, 0);
    push_decimal(&mut out, u64::MAX);
    assert_eq!(out, "018446744073709551615");
}

#[test]
fn timestamps_as_rfc3339() {
    let t = Timestamp::from_parts(1_700_000_000, 500_000_000).unwrap();
    assert_eq!(t.to_rfc3339(), "2023-11-14T22:13:20.500+00:00");
    assert_eq!(
        todo_service::time_ser::serialize(&t),
        "\"2023-11-14T22:13:20.500+00:00\""
    );
    assert_eq!(todo_service::time_ser_option::serialize(&None), "null");
    assert_eq!(
        todo_service::time_ser_option::serialize(&Some(at(0))),
        "\"1970-01-01T00:00:00+00:00\""
    );
}

#[test]
fn timestamps_out_of_range_are_refused() {
    assert!(Timestamp::from_parts(i64::MAX, 0).is_none());
    assert!(Timestamp::from_parts(0, 2_000_000_000).is_none());
    assert!(Timestamp::from_parts(-1, 0).is_some());
}

#[test]
fn clock_reading_is_well_formed() {
    let t = Timestamp::now();
    assert!(t.nanos() < 1_000_000_000);
    assert_eq!(Timestamp::from_parts(t.secs(), t.nanos()), Some(t));
}

#[test]
fn record_methods_set_fields() {
    let mut t = Todo::new(3, "x".to_string(), "y".to_string());
    assert_eq!((t.id, t.done), (3, false));
    assert!(t.updated_at.is_none());
    t.toggle_state();
    assert!(t.done);
    assert!(t.updated_at.is_some());
    t.update("p".to_string(), "q".to_string());
    assert_eq!((t.title.as_str(), t.content.as_str(), t.done), ("p", "q", true));
    let c = t.duplicate();
    assert_eq!(c.title, "p");
}

#[test]
fn creation_is_possible_on_fresh_store() {
    let store = seeded();
    assert!(store.can_create());
    assert_eq!(store.len(), 1);
}

#[test]
fn timestamps_read_from_rfc3339() {
    let t = todo_service::time_ser::deserialize("2023-11-14T23:13:20.5+01:00").unwrap();
    assert_eq!((t.secs(), t.nanos()), (1_700_000_000, 500_000_000));
    assert!(todo_service::time_ser::deserialize("yesterday").is_none());
    let back = todo_service::time_ser::deserialize(t.to_rfc3339().as_str()).unwrap();
    assert_eq!(back, t);
}
