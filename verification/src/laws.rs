//! The laws the resource obeys, proved over the abstract store contents
//! that the operations' contracts speak of.

use vstd::prelude::*;
use crate::store::contains_id;
use crate::store::delete_spec;
use crate::store::find_spec;
use crate::store::idx_of_id;
use crate::store::unique_ids;
use crate::store::update_spec;
use crate::todo::patch_view;
use crate::todo::replace_view;
use crate::todo::with_finished;
use crate::todo::TodoView;
use crate::todo::UpdateView;

verus! {

/// A freshly inserted row is found again by its id, unchanged: creating and
/// then fetching round-trips the row.
pub proof fn lemma_create_then_find(s: Seq<TodoView>, t: TodoView)
    requires
        !contains_id(s, t.id),
    ensures
        find_spec(s.push(t), t.id) == Some(t),
{
    let s2 = s.push(t);
    assert(s2[s.len() as int] == t);
    assert(contains_id(s2, t.id));
    let i = idx_of_id(s2, t.id);
    assert(0 <= i < s2.len() && s2[i].id == t.id);
    if i < s.len() {
        assert(s2[i] == s[i]);
        assert(contains_id(s, t.id));
    }
    assert(s2[i] == t);
}

/// A partial update keeps every field the request does not carry: with an
/// absent `expire_at` only `content` moves, and conversely; id and the
/// finished flag never move.
pub proof fn lemma_patch_keeps_absent_fields(t: TodoView, u: UpdateView)
    ensures
        u.expire_at is None ==> patch_view(t, u).expire_at == t.expire_at,
        u.content is None ==> patch_view(t, u).content == t.content,
        patch_view(t, u).id == t.id,
        patch_view(t, u).is_finished == t.is_finished,
{
}

/// A full replacement with an empty request clears the row: `content`
/// becomes absent and `expire_at` the empty string; id and the finished
/// flag are kept.
pub proof fn lemma_replace_with_empty_request(t: TodoView, u: UpdateView)
    requires
        u.expire_at is None,
        u.content is None,
    ensures
        replace_view(t, u).content is None,
        replace_view(t, u).expire_at == Seq::<char>::empty(),
        replace_view(t, u).id == t.id,
        replace_view(t, u).is_finished == t.is_finished,
{
}

/// Deleting an id that no row carries changes nothing.
pub proof fn lemma_delete_missing_is_noop(s: Seq<TodoView>, id: int)
    requires
        !contains_id(s, id),
    ensures
        delete_spec(s, id) == s,
{
}

/// After a deletion no row carries the id: a fetch finds nothing.
pub proof fn lemma_find_after_delete(s: Seq<TodoView>, id: int)
    requires
        unique_ids(s),
    ensures
        !contains_id(delete_spec(s, id), id),
        find_spec(delete_spec(s, id), id) is None,
{
    if contains_id(s, id) {
        let i = idx_of_id(s, id);
        assert(0 <= i < s.len() && s[i].id == id);
        let s2 = s.remove(i);
        s.remove_ensures(i);
        assert forall|k: int| 0 <= k < s2.len() implies s2[k].id != id by {
            if k < i {
                assert(s2[k] == s[k]);
                assert(s[k].id != s[i].id);
            } else {
                assert(s2[k] == s[k + 1]);
                assert(s[k + 1].id != s[i].id);
            }
        }
    }
}

/// Deletion is idempotent: deleting the same id twice is the same as
/// deleting it once.
pub proof fn lemma_delete_idempotent(s: Seq<TodoView>, id: int)
    requires
        unique_ids(s),
    ensures
        delete_spec(delete_spec(s, id), id) == delete_spec(s, id),
{
    lemma_find_after_delete(s, id);
}

/// Replacing a row never moves any id.
pub proof fn lemma_update_keeps_ids(s: Seq<TodoView>, t: TodoView)
    ensures
        update_spec(s, t).len() == s.len(),
        forall|k: int| 0 <= k < s.len() ==> #[trigger] update_spec(s, t)[k].id == s[k].id,
        unique_ids(s) ==> unique_ids(update_spec(s, t)),
        contains_id(s, t.id) ==> contains_id(update_spec(s, t), t.id),
{
    let s2 = update_spec(s, t);
    assert forall|k: int| 0 <= k < s.len() implies #[trigger] s2[k].id == s[k].id by {
        if s[k].id == t.id {
            assert(s2[k] == t);
        }
    }
    if unique_ids(s) {
        assert forall|a: int, b: int|
            0 <= a < s2.len() && 0 <= b < s2.len() && a != b implies s2[a].id != s2[b].id by {
            assert(s2[a].id == s[a].id);
            assert(s2[b].id == s[b].id);
        }
    }
    if contains_id(s, t.id) {
        let i = idx_of_id(s, t.id);
        assert(s2[i].id == s[i].id);
    }
}

/// A replaced row is what a later fetch returns.
pub proof fn lemma_find_after_update(s: Seq<TodoView>, t: TodoView)
    requires
        unique_ids(s),
        contains_id(s, t.id),
    ensures
        find_spec(update_spec(s, t), t.id) == Some(t),
{
    let s2 = update_spec(s, t);
    lemma_update_keeps_ids(s, t);
    let k = idx_of_id(s2, t.id);
    assert(0 <= k < s2.len() && s2[k].id == t.id);
    assert(s[k].id == t.id);
    assert(s2[k] == t);
}

/// Two replacements aimed at the same id collapse to the second one.
pub proof fn lemma_update_then_update(s: Seq<TodoView>, t1: TodoView, t2: TodoView)
    requires
        t1.id == t2.id,
    ensures
        update_spec(update_spec(s, t1), t2) == update_spec(s, t2),
{
    let s1 = update_spec(s, t1);
    let s2 = update_spec(s1, t2);
    assert forall|k: int| 0 <= k < s.len() implies s2[k] == update_spec(s, t2)[k] by {
        if s[k].id == t1.id {
            assert(s1[k] == t1);
        } else {
            assert(s1[k] == s[k]);
        }
    }
    assert(s2 =~= update_spec(s, t2));
}

/// Replacing a row with itself changes nothing.
pub proof fn lemma_update_same_is_noop(s: Seq<TodoView>, t: TodoView)
    requires
        unique_ids(s),
        find_spec(s, t.id) == Some(t),
    ensures
        update_spec(s, t) == s,
{
    let i = idx_of_id(s, t.id);
    assert(0 <= i < s.len() && s[i].id == t.id);
    assert forall|k: int| 0 <= k < s.len() implies update_spec(s, t)[k] == s[k] by {
        if s[k].id == t.id {
            assert(s[k].id == s[i].id);
            assert(k == i);
        }
    }
    assert(update_spec(s, t) =~= s);
}

/// Marking a row finished and then unfinished round-trips the finished
/// flag and leaves every other field where it was: on a row that was
/// unfinished to begin with, the whole store returns to its start.
pub proof fn lemma_finish_unfinish_roundtrip(s: Seq<TodoView>, t0: TodoView)
    requires
        unique_ids(s),
        find_spec(s, t0.id) == Some(t0),
    ensures
        ({
            let s1 = update_spec(s, with_finished(t0, true));
            find_spec(s1, t0.id) == Some(with_finished(t0, true)) && update_spec(
                s1,
                with_finished(t0, false),
            ) == update_spec(s, with_finished(t0, false))
        }),
        !t0.is_finished ==> update_spec(
            update_spec(s, with_finished(t0, true)),
            with_finished(t0, false),
        ) == s,
{
    assert(contains_id(s, t0.id));
    let up = with_finished(t0, true);
    let down = with_finished(t0, false);
    lemma_find_after_update(s, up);
    lemma_update_then_update(s, up, down);
    if !t0.is_finished {
        assert(down == t0);
        lemma_update_same_is_noop(s, t0);
    }
}

} // verus!
