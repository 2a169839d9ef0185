//! The store: the one ordered list of records, which assigns identities and
//! performs every change.

use crate::timestamp::Timestamp;
use crate::todo::{todo_json, Todo, TodoView};
use vstd::prelude::*;

verus! {

/// Identities rise strictly along the list; so no two records share one.
pub open spec fn ids_increasing(s: Seq<TodoView>) -> bool {
    forall|i: int, j: int| 0 <= i < j < s.len() ==> #[trigger] s[i].id < #[trigger] s[j].id
}

/// Some record in `s` has identity `id`.
pub open spec fn contains_id(s: Seq<TodoView>, id: u64) -> bool {
    exists|i: int| 0 <= i < s.len() && #[trigger] s[i].id == id
}

/// The place of the record with identity `id`, or -1 where there is none.
pub open spec fn index_of(s: Seq<TodoView>, id: u64) -> int {
    if contains_id(s, id) {
        choose|i: int| 0 <= i < s.len() && #[trigger] s[i].id == id
    } else {
        -1
    }
}

/// The record with identity `id`, if there is one.
pub open spec fn find(s: Seq<TodoView>, id: u64) -> Option<TodoView> {
    if contains_id(s, id) {
        Some(s[index_of(s, id)])
    } else {
        None
    }
}

/// The identity that the next record gets: one more than that of the last
/// record in the list, or 1 for an empty list.
pub open spec fn next_id(s: Seq<TodoView>) -> int {
    if s.len() == 0 {
        1
    } else {
        s.last().id + 1
    }
}

/// The list after a record with these fields is created at `now`.
pub open spec fn created(s: Seq<TodoView>, title: Seq<char>, content: Seq<char>, now: Timestamp) -> Seq<
    TodoView,
> {
    s.push(
        TodoView {
            id: next_id(s) as u64,
            title,
            content,
            done: false,
            created_at: now,
            updated_at: None,
        },
    )
}

/// The list after the record with identity `id`, if any, gets this title
/// and content at `now`.
pub open spec fn updated(
    s: Seq<TodoView>,
    id: u64,
    title: Seq<char>,
    content: Seq<char>,
    now: Timestamp,
) -> Seq<TodoView> {
    if contains_id(s, id) {
        let i = index_of(s, id);
        s.update(i, TodoView { title, content, updated_at: Some(now), ..s[i] })
    } else {
        s
    }
}

/// The list after the record with identity `id`, if any, is toggled at `now`.
pub open spec fn toggled(s: Seq<TodoView>, id: u64, now: Timestamp) -> Seq<TodoView> {
    if contains_id(s, id) {
        let i = index_of(s, id);
        s.update(i, TodoView { done: !s[i].done, updated_at: Some(now), ..s[i] })
    } else {
        s
    }
}

/// The list after the record with identity `id`, if any, is removed.
pub open spec fn deleted(s: Seq<TodoView>, id: u64) -> Seq<TodoView> {
    if contains_id(s, id) {
        s.remove(index_of(s, id))
    } else {
        s
    }
}

/// The records' JSON objects, separated by commas.
pub open spec fn items_json(s: Seq<TodoView>) -> Seq<char>
    decreases s.len(),
{
    if s.len() == 0 {
        Seq::empty()
    } else if s.len() == 1 {
        todo_json(s[0])
    } else {
        items_json(s.drop_last()) + seq![','] + todo_json(s.last())
    }
}

/// The list as a JSON array of record objects, in order.
pub open spec fn list_json(s: Seq<TodoView>) -> Seq<char> {
    seq!['['] + items_json(s) + seq![']']
}

/// In a list with rising identities, the record with a given identity sits
/// at one place only.
pub proof fn lemma_index_of(s: Seq<TodoView>, id: u64, i: int)
    requires
        ids_increasing(s),
        0 <= i < s.len(),
        s[i].id == id,
    ensures
        contains_id(s, id),
        index_of(s, id) == i,
        find(s, id) == Some(s[i]),
{
    let k = index_of(s, id);
    assert(0 <= k < s.len() && s[k].id == id);
    if k < i {
        assert(s[k].id < s[i].id);
    } else if i < k {
        assert(s[i].id < s[k].id);
    }
}

/// The ordered list of records.
pub struct Store {
    todos: Vec<Todo>,
}

impl View for Store {
    type V = Seq<TodoView>;

    closed spec fn view(&self) -> Seq<TodoView> {
        self.todos@.map_values(|t: Todo| t@)
    }
}

impl Store {
    /// The store's invariant: identities rise along its list.
    pub open spec fn wf(&self) -> bool {
        ids_increasing(self@)
    }

    /// An empty store.
    pub fn new() -> (r: Store)
        ensures
            r.wf(),
            r@ == Seq::<TodoView>::empty(),
    {
        let r = Store { todos: Vec::new() };
        assert(r@ =~= Seq::<TodoView>::empty());
        r
    }

    /// The number of records.
    pub fn len(&self) -> (r: usize)
        ensures
            r == self@.len(),
    {
        self.todos.len()
    }

    /// Where the record with identity `id` stands, if there is one.
    fn position(&self, id: u64) -> (r: Option<usize>)
        requires
            self.wf(),
        ensures
            r matches Some(i) ==> i < self@.len() && i == index_of(self@, id) && contains_id(
                self@,
                id,
            ),
            r is None ==> !contains_id(self@, id),
    {
        let mut i: usize = 0;
        while i < self.todos.len()
            invariant
                i <= self.todos@.len(),
                self@.len() == self.todos@.len(),
                ids_increasing(self@),
                forall|j: int| 0 <= j < i ==> #[trigger] self@[j].id != id,
            decreases self.todos.len() - i,
        {
            if self.todos[i].id == id {
                proof {
                    lemma_index_of(self@, id, i as int);
                }
                return Some(i);
            }
            i = i + 1;
        }
        None
    }

    /// The records as a JSON array, in order.
    pub fn to_json(&self) -> (r: String)
        ensures
            r@ == list_json(self@),
    {
        let mut out = String::new();
        crate::json::push_char(&mut out, '[');
        let mut i: usize = 0;
        while i < self.todos.len()
            invariant
                i <= self.todos@.len(),
                self@.len() == self.todos@.len(),
                out@ == seq!['['] + items_json(self@.take(i as int)),
            decreases self.todos.len() - i,
        {
            let ghost before = self@.take(i as int);
            if i > 0 {
                crate::json::push_char(&mut out, ',');
            }
            self.todos[i].push_json(&mut out);
            i = i + 1;
            proof {
                let now = self@.take(i as int);
                assert(now.drop_last() =~= before);
                assert(now.last() == self@[i - 1]);
                if i == 1 {
                    assert(before =~= Seq::<TodoView>::empty());
                    assert(items_json(now) == todo_json(now[0]));
                }
                assert(out@ =~= seq!['['] + items_json(now));
            }
        }
        assert(self@.take(i as int) =~= self@);
        crate::json::push_char(&mut out, ']');
        assert(out@ =~= list_json(self@));
        out
    }

    /// Copies of all records, in order.
    pub fn list(&self) -> (r: Vec<Todo>)
        ensures
            r@.len() == self@.len(),
            forall|k: int| 0 <= k < r@.len() ==> #[trigger] r@[k]@ == self@[k],
    {
        let mut r: Vec<Todo> = Vec::new();
        let mut i: usize = 0;
        while i < self.todos.len()
            invariant
                i <= self.todos@.len(),
                self@.len() == self.todos@.len(),
                r@.len() == i,
                forall|k: int| 0 <= k < i ==> #[trigger] r@[k]@ == self@[k],
            decreases self.todos.len() - i,
        {
            r.push(self.todos[i].duplicate());
            i = i + 1;
        }
        r
    }

    /// A copy of the record with identity `id`, if there is one.
    pub fn get(&self, id: u64) -> (r: Option<Todo>)
        requires
            self.wf(),
        ensures
            r matches Some(t) ==> find(self@, id) == Some(t@),
            r is None ==> find(self@, id) is None,
    {
        match self.position(id) {
            Some(i) => Some(self.todos[i].duplicate()),
            None => None,
        }
    }

    /// Whether one more record can be given an identity.
    pub fn can_create(&self) -> (r: bool)
        ensures
            r == (next_id(self@) <= u64::MAX),
    {
        let n = self.todos.len();
        n == 0 || self.todos[n - 1].id < u64::MAX
    }

    /// Appends a record created at `now` and returns its identity.
    pub fn create_at(&mut self, title: String, content: String, now: Timestamp) -> (id: u64)
        requires
            old(self).wf(),
            next_id(old(self)@) <= u64::MAX,
        ensures
            final(self).wf(),
            id == next_id(old(self)@),
            final(self)@ == created(old(self)@, title@, content@, now),
    {
        let n = self.todos.len();
        let id: u64 = if n == 0 {
            1
        } else {
            self.todos[n - 1].id + 1
        };
        let ghost s = self@;
        self.todos.push(Todo::new_at(id, title, content, now));
        assert(self@ =~= created(s, title@, content@, now));
        id
    }

    /// Appends a record created now and returns its identity.
    pub fn create(&mut self, title: String, content: String) -> (id: u64)
        requires
            old(self).wf(),
            next_id(old(self)@) <= u64::MAX,
        ensures
            final(self).wf(),
            id == next_id(old(self)@),
            exists|now: Timestamp| final(self)@ == #[trigger] created(old(self)@, title@, content@, now),
    {
        let now = Timestamp::now();
        self.create_at(title, content, now)
    }

    /// Gives the record with identity `id` this title and content, as
    /// updated at `now`; says whether there was such a record.
    pub fn update_at(&mut self, id: u64, title: String, content: String, now: Timestamp) -> (found: bool)
        requires
            old(self).wf(),
        ensures
            final(self).wf(),
            found == contains_id(old(self)@, id),
            final(self)@ == updated(old(self)@, id, title@, content@, now),
    {
        let ghost s = self@;
        match self.position(id) {
            Some(i) => {
                self.todos[i].update_at(title, content, now);
                assert(self@ =~= updated(s, id, title@, content@, now));
                assert(forall|k: int| 0 <= k < s.len() ==> #[trigger] self@[k].id == s[k].id);
                true
            },
            None => false,
        }
    }

    /// Gives the record with identity `id` this title and content, as
    /// updated now; says whether there was such a record.
    pub fn update(&mut self, id: u64, title: String, content: String) -> (found: bool)
        requires
            old(self).wf(),
        ensures
            final(self).wf(),
            found == contains_id(old(self)@, id),
            !found ==> final(self)@ == old(self)@,
            exists|now: Timestamp|
                final(self)@ == #[trigger] updated(old(self)@, id, title@, content@, now),
    {
        let now = Timestamp::now();
        self.update_at(id, title, content, now)
    }

    /// Flips `done` of the record with identity `id`, as updated at `now`;
    /// says whether there was such a record.
    pub fn toggle_at(&mut self, id: u64, now: Timestamp) -> (found: bool)
        requires
            old(self).wf(),
        ensures
            final(self).wf(),
            found == contains_id(old(self)@, id),
            final(self)@ == toggled(old(self)@, id, now),
    {
        let ghost s = self@;
        match self.position(id) {
            Some(i) => {
                self.todos[i].toggle_state_at(now);
                assert(self@ =~= toggled(s, id, now));
                assert(forall|k: int| 0 <= k < s.len() ==> #[trigger] self@[k].id == s[k].id);
                true
            },
            None => false,
        }
    }

    /// Flips `done` of the record with identity `id`, as updated now; says
    /// whether there was such a record.
    pub fn toggle(&mut self, id: u64) -> (found: bool)
        requires
            old(self).wf(),
        ensures
            final(self).wf(),
            found == contains_id(old(self)@, id),
            !found ==> final(self)@ == old(self)@,
            exists|now: Timestamp| final(self)@ == #[trigger] toggled(old(self)@, id, now),
    {
        let now = Timestamp::now();
        self.toggle_at(id, now)
    }

    /// Removes the record with identity `id`, keeping the order of the
    /// others; says whether there was such a record.
    pub fn delete(&mut self, id: u64) -> (found: bool)
        requires
            old(self).wf(),
        ensures
            final(self).wf(),
            found == contains_id(old(self)@, id),
            final(self)@ == deleted(old(self)@, id),
    {
        let ghost s = self@;
        match self.position(id) {
            Some(i) => {
                self.todos.remove(i);
                assert(self@ =~= s.remove(i as int));
                assert forall|a: int, b: int| 0 <= a < b < self@.len() implies #[trigger] self@[a].id
                    < #[trigger] self@[b].id by {
                    let a1 = if a < i { a } else { a + 1 };
                    let b1 = if b < i { b } else { b + 1 };
                    assert(s[a1].id < s[b1].id);
                }
                true
            },
            None => false,
        }
    }
}

} // verus!
