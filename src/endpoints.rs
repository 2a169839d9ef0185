//! The request handlers: each performs one store operation and maps its
//! outcome to a status, an optional `Location` path and a body.

use crate::json::{decimal, push_char, push_decimal};
use crate::store::{contains_id, created, deleted, find, list_json, next_id, toggled, updated, Store};
use crate::timestamp::Timestamp;
use crate::laws::law_get_after_create;
use crate::todo::{todo_json, SetTodo, TodoView};
use vstd::prelude::*;

verus! {

pub const OK: u16 = 200;

pub const CREATED: u16 = 201;

pub const NO_CONTENT: u16 = 204;

pub const NOT_FOUND: u16 = 404;

/// What a handler answers. A non-empty body is JSON.
pub struct Response {
    pub status: u16,
    pub location: Option<String>,
    pub body: String,
}

/// The path of the record with identity `id`.
pub open spec fn location_path(id: u64) -> Seq<char> {
    seq!['/'] + decimal(id as nat)
}

/// The response has status `status`, no `Location` and an empty body.
pub open spec fn is_bare(r: Response, status: u16) -> bool {
    &&& r.status == status
    &&& r.location is None
    &&& r.body@ == Seq::<char>::empty()
}

/// The response has status `status`, `Location` the path of `id`, and an
/// empty body.
pub open spec fn is_located(r: Response, status: u16, id: u64) -> bool {
    &&& r.status == status
    &&& r.location matches Some(l) && l@ == location_path(id)
    &&& r.body@ == Seq::<char>::empty()
}

fn bare(status: u16) -> (r: Response)
    ensures
        is_bare(r, status),
{
    Response { status, location: None, body: String::new() }
}

fn located(status: u16, id: u64) -> (r: Response)
    ensures
        is_located(r, status, id),
{
    let mut path = String::new();
    push_char(&mut path, '/');
    push_decimal(&mut path, id);
    assert(path@ =~= location_path(id));
    Response { status, location: Some(path), body: String::new() }
}

/// Lists all records: 200 with a JSON array in order, or 204 with an empty
/// body when there are none.
pub fn all(store: &Store) -> (r: Response)
    ensures
        store@.len() == 0 ==> is_bare(r, NO_CONTENT),
        store@.len() > 0 ==> r.status == OK && r.location is None && r.body@ == list_json(store@),
{
    if store.len() >= 1 {
        Response { status: OK, location: None, body: store.to_json() }
    } else {
        bare(NO_CONTENT)
    }
}

/// Fetches one record: 200 with its JSON object, or 404.
pub fn single(store: &Store, id: u64) -> (r: Response)
    requires
        store.wf(),
    ensures
        match find(store@, id) {
            Some(t) => r.status == OK && r.location is None && r.body@ == todo_json(t),
            None => is_bare(r, NOT_FOUND),
        },
{
    match store.get(id) {
        Some(t) => Response { status: OK, location: None, body: t.to_json() },
        None => bare(NOT_FOUND),
    }
}

/// Creates a record at `now`: 201 with the new record's path.
pub fn add_at(store: &mut Store, todo: SetTodo, now: Timestamp) -> (r: Response)
    requires
        old(store).wf(),
        next_id(old(store)@) <= u64::MAX,
    ensures
        final(store).wf(),
        final(store)@ == created(old(store)@, todo.title@, todo.content@, now),
        find(final(store)@, next_id(old(store)@) as u64) == Some(
            TodoView {
                id: next_id(old(store)@) as u64,
                title: todo.title@,
                content: todo.content@,
                done: false,
                created_at: now,
                updated_at: None,
            },
        ),
        is_located(r, CREATED, next_id(old(store)@) as u64),
{
    proof {
        law_get_after_create(store@, todo.title@, todo.content@, now);
    }
    let id = store.create_at(todo.title, todo.content, now);
    located(CREATED, id)
}

/// Creates a record now: 201 with the new record's path.
pub fn add(store: &mut Store, todo: SetTodo) -> (r: Response)
    requires
        old(store).wf(),
        next_id(old(store)@) <= u64::MAX,
    ensures
        final(store).wf(),
        exists|now: Timestamp|
            final(store)@ == #[trigger] created(old(store)@, todo.title@, todo.content@, now),
        find(final(store)@, next_id(old(store)@) as u64) matches Some(t) && t.id == next_id(
            old(store)@,
        ) && t.title == todo.title@ && t.content == todo.content@ && !t.done
            && t.updated_at is None,
        is_located(r, CREATED, next_id(old(store)@) as u64),
{
    add_at(store, todo, Timestamp::now())
}

/// Deletes a record: 204, or 404 when there is none with that identity.
pub fn remove(store: &mut Store, id: u64) -> (r: Response)
    requires
        old(store).wf(),
    ensures
        final(store).wf(),
        final(store)@ == deleted(old(store)@, id),
        is_bare(r, if contains_id(old(store)@, id) { NO_CONTENT } else { NOT_FOUND }),
{
    if store.delete(id) {
        bare(NO_CONTENT)
    } else {
        bare(NOT_FOUND)
    }
}

/// Edits a record at `now`: 204 with its path, or 404.
pub fn edit_at(store: &mut Store, id: u64, todo: SetTodo, now: Timestamp) -> (r: Response)
    requires
        old(store).wf(),
    ensures
        final(store).wf(),
        final(store)@ == updated(old(store)@, id, todo.title@, todo.content@, now),
        contains_id(old(store)@, id) ==> is_located(r, NO_CONTENT, id),
        !contains_id(old(store)@, id) ==> is_bare(r, NOT_FOUND),
{
    if store.update_at(id, todo.title, todo.content, now) {
        located(NO_CONTENT, id)
    } else {
        bare(NOT_FOUND)
    }
}

/// Edits a record now: 204 with its path, or 404.
pub fn edit(store: &mut Store, id: u64, todo: SetTodo) -> (r: Response)
    requires
        old(store).wf(),
    ensures
        final(store).wf(),
        exists|now: Timestamp|
            final(store)@ == #[trigger] updated(old(store)@, id, todo.title@, todo.content@, now),
        contains_id(old(store)@, id) ==> is_located(r, NO_CONTENT, id),
        !contains_id(old(store)@, id) ==> is_bare(r, NOT_FOUND) && final(store)@ == old(store)@,
{
    edit_at(store, id, todo, Timestamp::now())
}

/// Toggles a record at `now`: 204, or 404.
pub fn toggle_at(store: &mut Store, id: u64, now: Timestamp) -> (r: Response)
    requires
        old(store).wf(),
    ensures
        final(store).wf(),
        final(store)@ == toggled(old(store)@, id, now),
        is_bare(r, if contains_id(old(store)@, id) { NO_CONTENT } else { NOT_FOUND }),
{
    if store.toggle_at(id, now) {
        bare(NO_CONTENT)
    } else {
        bare(NOT_FOUND)
    }
}

/// Toggles a record now: 204, or 404.
pub fn toggle(store: &mut Store, id: u64) -> (r: Response)
    requires
        old(store).wf(),
    ensures
        final(store).wf(),
        exists|now: Timestamp| final(store)@ == #[trigger] toggled(old(store)@, id, now),
        !contains_id(old(store)@, id) ==> final(store)@ == old(store)@,
        is_bare(r, if contains_id(old(store)@, id) { NO_CONTENT } else { NOT_FOUND }),
{
    toggle_at(store, id, Timestamp::now())
}

} // verus!
