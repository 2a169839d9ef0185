//! What holds across the store's operations, stated over their models.

use crate::store::{
    contains_id, created, deleted, find, ids_increasing, index_of, lemma_index_of, next_id, toggled,
    updated,
};
use crate::timestamp::{not_after, Timestamp};
use crate::todo::TodoView;
use vstd::prelude::*;

verus! {

/// The largest identity in the list, or 0 for an empty list.
pub open spec fn max_id(s: Seq<TodoView>) -> int
    decreases s.len(),
{
    if s.len() == 0 {
        0
    } else {
        let m = max_id(s.drop_last());
        if s.last().id > m {
            s.last().id as int
        } else {
            m
        }
    }
}

/// With rising identities the last record holds the largest.
pub proof fn lemma_max_id_is_last(s: Seq<TodoView>)
    requires
        ids_increasing(s),
        s.len() > 0,
    ensures
        max_id(s) == s.last().id,
    decreases s.len(),
{
    let p = s.drop_last();
    if p.len() > 0 {
        assert(ids_increasing(p));
        lemma_max_id_is_last(p);
        assert(p.last() == s[p.len() - 1]);
        assert(s[p.len() - 1].id < s[s.len() - 1].id);
    } else {
        assert(max_id(p) == 0);
    }
}

/// Replacing one record by one with the same identity keeps identities
/// rising, and the new record is then found under that identity.
proof fn lemma_replace(s: Seq<TodoView>, i: int, t: TodoView)
    requires
        ids_increasing(s),
        0 <= i < s.len(),
        t.id == s[i].id,
    ensures
        ids_increasing(s.update(i, t)),
        find(s.update(i, t), t.id) == Some(t),
{
    let s2 = s.update(i, t);
    assert forall|a: int, b: int| 0 <= a < b < s2.len() implies #[trigger] s2[a].id
        < #[trigger] s2[b].id by {
        assert(s[a].id < s[b].id);
    }
    lemma_index_of(s2, t.id, i);
}

/// A record just created is found under the identity it was given, with
/// the title and content supplied, not done and never updated; it is the
/// only record with that identity, and identities still rise along the list.
pub proof fn law_get_after_create(s: Seq<TodoView>, title: Seq<char>, content: Seq<char>, now: Timestamp)
    requires
        ids_increasing(s),
        next_id(s) <= u64::MAX,
    ensures
        ids_increasing(created(s, title, content, now)),
        find(created(s, title, content, now), next_id(s) as u64) == Some(
            TodoView {
                id: next_id(s) as u64,
                title,
                content,
                done: false,
                created_at: now,
                updated_at: None,
            },
        ),
        forall|i: int|
            0 <= i < created(s, title, content, now).len() && #[trigger] created(
                s,
                title,
                content,
                now,
            )[i].id == next_id(s) as u64 ==> i == s.len(),
{
    let s2 = created(s, title, content, now);
    assert forall|a: int, b: int| 0 <= a < b < s2.len() implies #[trigger] s2[a].id
        < #[trigger] s2[b].id by {
        if b == s.len() && a < s.len() - 1 {
            assert(s[a].id < s[s.len() - 1].id);
        }
    }
    lemma_index_of(s2, next_id(s) as u64, s.len() as int);
}

/// Creating a record and deleting it at once gives back the list as it
/// was, so the record created next gets that same identity again: one more
/// than the largest identity still held, or 1 when none is.
pub proof fn law_create_delete_create(
    s: Seq<TodoView>,
    title: Seq<char>,
    content: Seq<char>,
    now: Timestamp,
)
    requires
        ids_increasing(s),
        next_id(s) <= u64::MAX,
    ensures
        deleted(created(s, title, content, now), next_id(s) as u64) == s,
        next_id(deleted(created(s, title, content, now), next_id(s) as u64)) == next_id(s),
        next_id(deleted(created(s, title, content, now), next_id(s) as u64)) == max_id(s) + 1,
{
    let s1 = created(s, title, content, now);
    law_get_after_create(s, title, content, now);
    lemma_index_of(s1, next_id(s) as u64, s.len() as int);
    assert(s1.remove(s.len() as int) =~= s);
    if s.len() > 0 {
        lemma_max_id_is_last(s);
    }
}

/// Editing a record gives it the new title and content and marks it
/// updated at the time of the edit; its identity, creation time and `done`
/// stay. Where the clock has not gone back since the record was created,
/// the update time is not before the creation time.
pub proof fn law_update(
    s: Seq<TodoView>,
    id: u64,
    title: Seq<char>,
    content: Seq<char>,
    now: Timestamp,
)
    requires
        ids_increasing(s),
        find(s, id) is Some,
        not_after(find(s, id)->0.created_at@, now@),
    ensures
        ids_increasing(updated(s, id, title, content, now)),
        find(updated(s, id, title, content, now), id) == Some(
            TodoView { title, content, updated_at: Some(now), ..find(s, id)->0 },
        ),
        find(updated(s, id, title, content, now), id) matches Some(t) && t.updated_at matches Some(
            u,
        ) && not_after(t.created_at@, u@),
{
    let i = index_of(s, id);
    lemma_replace(s, i, TodoView { title, content, updated_at: Some(now), ..s[i] });
}

/// Toggling a record twice brings `done` back to what it was; each toggle
/// marks the record updated at its own time.
pub proof fn law_toggle_twice(s: Seq<TodoView>, id: u64, first: Timestamp, second: Timestamp)
    requires
        ids_increasing(s),
        find(s, id) is Some,
    ensures
        ids_increasing(toggled(s, id, first)),
        ids_increasing(toggled(toggled(s, id, first), id, second)),
        find(toggled(s, id, first), id) == Some(
            TodoView { done: !find(s, id)->0.done, updated_at: Some(first), ..find(s, id)->0 },
        ),
        find(toggled(toggled(s, id, first), id, second), id) == Some(
            TodoView { updated_at: Some(second), ..find(s, id)->0 },
        ),
{
    let i = index_of(s, id);
    let t1 = TodoView { done: !s[i].done, updated_at: Some(first), ..s[i] };
    lemma_replace(s, i, t1);
    let s1 = s.update(i, t1);
    lemma_index_of(s1, id, i);
    let t2 = TodoView { done: !t1.done, updated_at: Some(second), ..t1 };
    lemma_replace(s1, i, t2);
}

/// An identity that no record holds is found nowhere, and editing,
/// toggling or deleting under it leaves the list as it was.
pub proof fn law_not_found(s: Seq<TodoView>, id: u64, title: Seq<char>, content: Seq<char>, now: Timestamp)
    requires
        !contains_id(s, id),
    ensures
        find(s, id) is None,
        updated(s, id, title, content, now) == s,
        toggled(s, id, now) == s,
        deleted(s, id) == s,
{
}

} // verus!
