//! An in-memory model of the persisted todo collection.
//!
//! The store keeps rows in insertion order and assigns ids itself: unique,
//! never reused, immutable after creation. At the specification level the
//! store is a sequence of `TodoView` records with pairwise distinct ids, and
//! every operation is described by a spec function over that sequence.

use vstd::prelude::*;
use vstd::pervasive::VecAdditionalExecFns;
use crate::todo::create_view;
use crate::todo::CreateTodoDto;
use crate::todo::Todo;
use crate::todo::TodoView;

verus! {

/// The error vocabulary of the persistence boundary: a missing row, a
/// rejected payload (reserved, nothing rejects today), or a storage failure
/// with its textual cause.
#[derive(Debug, PartialEq, Eq)]
pub enum AppError {
    NotFound,
    ValidationFailure,
    StorageError(String),
}

impl AppError {
    /// The textual description of the error, consumed.
    pub fn into_message(self) -> (s: String)
        ensures
            (match self {
                AppError::StorageError(m) => s == m,
                AppError::NotFound => s@ == "not found"@,
                AppError::ValidationFailure => s@ == "validation failure"@,
            }),
    {
        broadcast use vstd::string::to_string_from_display_ensures_for_str;

        match self {
            AppError::StorageError(m) => m,
            AppError::NotFound => "not found".to_string(),
            AppError::ValidationFailure => "validation failure".to_string(),
        }
    }
}

/// The abstract contents of a sequence of rows.
pub open spec fn views_of(s: Seq<Todo>) -> Seq<TodoView> {
    s.map_values(|t: Todo| t@)
}

/// All ids in the sequence are pairwise distinct.
pub open spec fn unique_ids(s: Seq<TodoView>) -> bool {
    forall|i: int, j: int|
        0 <= i < s.len() && 0 <= j < s.len() && i != j ==> s[i].id != s[j].id
}

/// Some row carries this id.
pub open spec fn contains_id(s: Seq<TodoView>, id: int) -> bool {
    exists|i: int| 0 <= i < s.len() && s[i].id == id
}

/// An index of a row carrying this id (unique when ids are).
pub open spec fn idx_of_id(s: Seq<TodoView>, id: int) -> int {
    choose|i: int| 0 <= i < s.len() && s[i].id == id
}

/// The row carrying this id, if any.
pub open spec fn find_spec(s: Seq<TodoView>, id: int) -> Option<TodoView> {
    if contains_id(s, id) {
        Option::Some(s[idx_of_id(s, id)])
    } else {
        Option::None
    }
}

/// The sequence with every row whose id matches `t.id` replaced by `t`.
pub open spec fn update_spec(s: Seq<TodoView>, t: TodoView) -> Seq<TodoView> {
    Seq::new(
        s.len(),
        |i: int|
            if s[i].id == t.id {
                t
            } else {
                s[i]
            },
    )
}

/// The sequence without the row carrying this id; unchanged when no row does.
pub open spec fn delete_spec(s: Seq<TodoView>, id: int) -> Seq<TodoView> {
    if contains_id(s, id) {
        s.remove(idx_of_id(s, id))
    } else {
        s
    }
}

/// The in-memory todo collection with its id counter.
pub struct TodoStore {
    todos: Vec<Todo>,
    next_id: i32,
}

impl View for TodoStore {
    type V = Seq<TodoView>;

    closed spec fn view(&self) -> Seq<TodoView> {
        views_of(self.todos@)
    }
}

impl TodoStore {
    /// The store's internal invariant: ids are pairwise distinct, positive,
    /// and below the id counter, so a fresh id never collides.
    pub closed spec fn wf(self) -> bool {
        &&& unique_ids(self@)
        &&& forall|i: int| 0 <= i < self@.len() ==> 1 <= #[trigger] self@[i].id < self.next_id as int
        &&& self.next_id >= 1
    }

    /// The store is full exactly when the id counter can no longer grow.
    pub closed spec fn at_capacity(self) -> bool {
        self.next_id == i32::MAX
    }

    /// The id the next successful insertion will assign.
    pub closed spec fn fresh_id(self) -> int {
        self.next_id as int
    }

    /// Well-formedness is visible on the abstract contents.
    pub proof fn lemma_wf_unique(self)
        requires
            self.wf(),
        ensures
            unique_ids(self@),
    {
    }

    /// Exhaustion is no mystery to callers: it happens exactly at the
    /// largest assignable id.
    pub proof fn lemma_capacity_iff(self)
        ensures
            self.at_capacity() <==> self.fresh_id() == i32::MAX as int,
    {
    }

    /// An empty store; ids are assigned from 1 up.
    pub fn new() -> (s: TodoStore)
        ensures
            s.wf(),
            s@ == Seq::<TodoView>::empty(),
            s.fresh_id() == 1,
            !s.at_capacity(),
    {
        let s = TodoStore { todos: Vec::new(), next_id: 1 };
        proof {
            assert(s@ =~= Seq::<TodoView>::empty());
        }
        s
    }

    /// Number of stored rows.
    pub fn count(&self) -> (n: usize)
        ensures
            n == self@.len(),
    {
        self.todos.len()
    }

    /// All rows, in insertion order.
    pub fn find_all(&self) -> (r: &Vec<Todo>)
        ensures
            views_of(r@) == self@,
    {
        &self.todos
    }

    /// The row carrying `id`, if any, as an owned copy.
    pub fn find_by_id(&self, id: i32) -> (r: Option<Todo>)
        requires
            self.wf(),
        ensures
            r is Some <==> contains_id(self@, id as int),
            r matches Some(t) ==> find_spec(self@, id as int) == Some(t@),
    {
        let n = self.todos.len();
        let mut i: usize = 0;
        while i < n
            invariant
                self.wf(),
                n == self@.len(),
                i <= n,
                forall|j: int| 0 <= j < i ==> self@[j].id != id as int,
            decreases n - i,
        {
            if self.todos[i].id == id {
                proof {
                    assert(self@[i as int].id == id as int);
                    let k = idx_of_id(self@, id as int);
                    assert(self@[k].id == id as int);
                    assert(k == i as int);
                }
                return Some(self.todos[i].duplicate());
            }
            i = i + 1;
        }
        None
    }

    /// Insert a new row built from the creation request: the store assigns
    /// the id and the row starts unfinished. Fails only when the id space
    /// is exhausted.
    pub fn insert(&mut self, dto: CreateTodoDto) -> (r: Result<Todo, AppError>)
        requires
            old(self).wf(),
        ensures
            final(self).wf(),
            !old(self).at_capacity() ==> (r matches Ok(t) && {
                &&& t@ == create_view(old(self).fresh_id(), dto@)
                &&& final(self)@ == old(self)@.push(t@)
                &&& !contains_id(old(self)@, t@.id)
                &&& final(self).fresh_id() == old(self).fresh_id() + 1
            }),
            old(self).at_capacity() ==> (r matches Err(e) && e is StorageError && final(self)@
                == old(self)@),
    {
        broadcast use vstd::string::to_string_from_display_ensures_for_str;

        if self.next_id == i32::MAX {
            return Err(AppError::StorageError("todo id space exhausted".to_string()));
        }
        let t = Todo::of_create(self.next_id, dto);
        let out = t.duplicate();
        let ghost prev = self@;
        self.todos.push(t);
        self.next_id = self.next_id + 1;
        proof {
            assert(self@ =~= prev.push(t@));
        }
        Ok(out)
    }

    /// Replace the row carrying `t.id` with `t`. Fails when no row does,
    /// which the persistence layer reports as a storage failure.
    pub fn update(&mut self, t: Todo) -> (r: Result<Todo, AppError>)
        requires
            old(self).wf(),
        ensures
            final(self).wf(),
            final(self).fresh_id() == old(self).fresh_id(),
            contains_id(old(self)@, t@.id) ==> (r matches Ok(u) && u@ == t@ && final(self)@
                == update_spec(old(self)@, t@)),
            !contains_id(old(self)@, t@.id) ==> (r matches Err(e) && e is StorageError
                && final(self)@ == old(self)@),
    {
        broadcast use vstd::string::to_string_from_display_ensures_for_str;

        let n = self.todos.len();
        let mut i: usize = 0;
        while i < n
            invariant
                self.wf(),
                *self == *old(self),
                n == self@.len(),
                i <= n,
                forall|j: int| 0 <= j < i ==> self@[j].id != t@.id,
            decreases n - i,
        {
            if self.todos[i].id == t.id {
                let ghost prev = self@;
                let ghost tv = t@;
                let out = t.duplicate();
                self.todos.set(i, t);
                proof {
                    assert(prev[i as int].id == tv.id);
                    assert forall|k: int| 0 <= k < prev.len() implies self@[k] == update_spec(
                        prev,
                        tv,
                    )[k] by {
                        if k != i as int {
                            assert(prev[k].id != prev[i as int].id);
                        }
                    }
                    assert(self@ =~= update_spec(prev, tv));
                    assert forall|a: int, b: int|
                        0 <= a < self@.len() && 0 <= b < self@.len() && a != b implies self@[a].id
                        != self@[b].id by {
                        assert(self@[a].id == prev[a].id);
                        assert(self@[b].id == prev[b].id);
                    }
                    assert forall|k: int| 0 <= k < self@.len() implies 1 <= #[trigger] self@[k].id
                        < self.next_id as int by {
                        assert(self@[k].id == prev[k].id);
                    }
                }
                return Ok(out);
            }
            i = i + 1;
        }
        Err(AppError::StorageError("record not updated".to_string()))
    }

    /// Remove the row carrying `id`, reporting how many rows left. Removing
    /// a missing id is not an error: zero rows leave.
    pub fn delete_by_id(&mut self, id: i32) -> (n: usize)
        requires
            old(self).wf(),
        ensures
            final(self).wf(),
            final(self).fresh_id() == old(self).fresh_id(),
            final(self)@ == delete_spec(old(self)@, id as int),
            n == old(self)@.len() - final(self)@.len(),
    {
        let len = self.todos.len();
        let mut i: usize = 0;
        while i < len
            invariant
                self.wf(),
                *self == *old(self),
                len == self@.len(),
                i <= len,
                forall|j: int| 0 <= j < i ==> self@[j].id != id as int,
            decreases len - i,
        {
            if self.todos[i].id == id {
                let ghost prev = self@;
                let ghost prev_todos = self.todos@;
                self.todos.remove(i);
                proof {
                    assert(prev[i as int].id == id as int);
                    assert(contains_id(prev, id as int));
                    prev_todos.remove_ensures(i as int);
                    prev.remove_ensures(i as int);
                    assert forall|k: int| 0 <= k < prev.len() - 1 implies self@[k] == prev.remove(
                        i as int,
                    )[k] by {
                        if k < i as int {
                            assert(self.todos@[k] == prev_todos[k]);
                            assert(prev.remove(i as int)[k] == prev[k]);
                        } else {
                            assert(self.todos@[k] == prev_todos[k + 1]);
                            assert(prev.remove(i as int)[k] == prev[k + 1]);
                        }
                    }
                    assert(self@ =~= prev.remove(i as int));
                    let k = idx_of_id(prev, id as int);
                    assert(prev[k].id == id as int);
                    if k != i as int {
                        assert(prev[k].id != prev[i as int].id);
                    }
                    assert(k == i as int);
                    assert forall|a: int, b: int|
                        0 <= a < self@.len() && 0 <= b < self@.len() && a != b implies self@[a].id
                        != self@[b].id by {
                        assert(self@[a] == (if a < i as int {
                            prev[a]
                        } else {
                            prev[a + 1]
                        }));
                        assert(self@[b] == (if b < i as int {
                            prev[b]
                        } else {
                            prev[b + 1]
                        }));
                    }
                    assert forall|j: int| 0 <= j < self@.len() implies 1 <= #[trigger] self@[j].id
                        < self.next_id as int by {
                        assert(self@[j] == (if j < i as int {
                            prev[j]
                        } else {
                            prev[j + 1]
                        }));
                    }
                }
                return 1;
            }
            i = i + 1;
        }
        0
    }
}

} // verus!
