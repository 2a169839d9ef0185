//! A task record, the input that creates or edits one, and its JSON form.

use crate::json::{decimal, json_string, push_decimal, push_json_string};
use crate::time_ser::time_json;
use crate::time_ser_option::opt_time_json;
use crate::timestamp::Timestamp;
use vstd::prelude::*;
use vstd::string::StringExecFns;

verus! {

/// A record as the contracts see it.
pub struct TodoView {
    pub id: u64,
    pub title: Seq<char>,
    pub content: Seq<char>,
    pub done: bool,
    pub created_at: Timestamp,
    pub updated_at: Option<Timestamp>,
}

/// A task record. The store assigns `id`; `created_at` is set once, and
/// `updated_at` on every edit or toggle.
#[derive(Clone, Debug)]
pub struct Todo {
    pub id: u64,
    pub title: String,
    pub content: String,
    pub done: bool,
    pub created_at: Timestamp,
    pub updated_at: Option<Timestamp>,
}

/// The title and content that create or edit a record.
#[derive(Clone, Debug)]
pub struct SetTodo {
    pub title: String,
    pub content: String,
}

impl View for Todo {
    type V = TodoView;

    open spec fn view(&self) -> TodoView {
        TodoView {
            id: self.id,
            title: self.title@,
            content: self.content@,
            done: self.done,
            created_at: self.created_at,
            updated_at: self.updated_at,
        }
    }
}

/// `done` as a JSON literal.
pub open spec fn bool_json(b: bool) -> Seq<char> {
    if b {
        "true"@
    } else {
        "false"@
    }
}

/// The JSON object for a record: its fields in declaration order, with no
/// whitespace.
pub open spec fn todo_json(t: TodoView) -> Seq<char> {
    "{\"id\":"@ + decimal(t.id as nat) + ",\"title\":"@ + json_string(t.title) + ",\"content\":"@
        + json_string(t.content) + ",\"done\":"@ + bool_json(t.done) + ",\"created_at\":"@
        + time_json(t.created_at) + ",\"updated_at\":"@ + opt_time_json(t.updated_at) + "}"@
}

impl Todo {
    /// A new record created at `now`: not done, never updated.
    pub fn new_at(id: u64, title: String, content: String, now: Timestamp) -> (r: Todo)
        ensures
            r@ == (TodoView {
                id,
                title: title@,
                content: content@,
                done: false,
                created_at: now,
                updated_at: None,
            }),
    {
        Todo { id, title, content, done: false, created_at: now, updated_at: None }
    }

    /// A new record created now: not done, never updated.
    pub fn new(id: u64, title: String, content: String) -> (r: Todo)
        ensures
            r@.id == id,
            r@.title == title@,
            r@.content == content@,
            !r@.done,
            r@.updated_at is None,
    {
        Todo::new_at(id, title, content, Timestamp::now())
    }

    /// Replaces title and content; the record counts as updated at `now`.
    pub fn update_at(&mut self, title: String, content: String, now: Timestamp)
        ensures
            final(self)@ == (TodoView {
                title: title@,
                content: content@,
                updated_at: Some(now),
                ..old(self)@
            }),
    {
        self.title = title;
        self.content = content;
        self.updated_at = Some(now);
    }

    /// Replaces title and content; the record counts as updated now.
    pub fn update(&mut self, title: String, content: String)
        ensures
            final(self)@.id == old(self)@.id,
            final(self)@.title == title@,
            final(self)@.content == content@,
            final(self)@.done == old(self)@.done,
            final(self)@.created_at == old(self)@.created_at,
            final(self)@.updated_at is Some,
    {
        let now = Timestamp::now();
        self.update_at(title, content, now);
    }

    /// Flips `done`; the record counts as updated at `now`.
    pub fn toggle_state_at(&mut self, now: Timestamp)
        ensures
            final(self)@ == (TodoView { done: !old(self)@.done, updated_at: Some(now), ..old(self)@ }),
    {
        self.done = !self.done;
        self.updated_at = Some(now);
    }

    /// Flips `done`; the record counts as updated now.
    pub fn toggle_state(&mut self)
        ensures
            final(self)@.id == old(self)@.id,
            final(self)@.title == old(self)@.title,
            final(self)@.content == old(self)@.content,
            final(self)@.done == !old(self)@.done,
            final(self)@.created_at == old(self)@.created_at,
            final(self)@.updated_at is Some,
    {
        let now = Timestamp::now();
        self.toggle_state_at(now);
    }

    /// A copy of the record.
    pub fn duplicate(&self) -> (r: Todo)
        ensures
            r@ == self@,
    {
        Todo {
            id: self.id,
            title: self.title.clone(),
            content: self.content.clone(),
            done: self.done,
            created_at: self.created_at,
            updated_at: self.updated_at,
        }
    }

    /// Appends the record's JSON object.
    pub fn push_json(&self, out: &mut String)
        ensures
            final(out)@ == old(out)@ + todo_json(self@),
    {
        out.append("{\"id\":");
        push_decimal(out, self.id);
        out.append(",\"title\":");
        push_json_string(out, self.title.as_str());
        out.append(",\"content\":");
        push_json_string(out, self.content.as_str());
        out.append(",\"done\":");
        if self.done {
            out.append("true");
        } else {
            out.append("false");
        }
        out.append(",\"created_at\":");
        let created = crate::time_ser::serialize(&self.created_at);
        out.append(created.as_str());
        out.append(",\"updated_at\":");
        let updated = crate::time_ser_option::serialize(&self.updated_at);
        out.append(updated.as_str());
        out.append("}");
        assert(out@ =~= old(out)@ + todo_json(self@));
    }

    /// The record's JSON object.
    pub fn to_json(&self) -> (r: String)
        ensures
            r@ == todo_json(self@),
    {
        let mut out = String::new();
        self.push_json(&mut out);
        assert(out@ =~= todo_json(self@));
        out
    }
}

} // verus!
