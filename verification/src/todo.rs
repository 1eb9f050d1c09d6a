//! The todo entity and its request/response shapes.
//!
//! `Todo` is the persisted row: a system-assigned immutable id, a deadline
//! string, optional free text, and a finished flag. The three DTOs are the
//! boundary shapes: `CreateTodoDto` for creation, `UpdateTodoDto` for full
//! or partial updates, `TodoDto` as the read-only projection handed back to
//! clients. At the specification level every one of them projects onto
//! `TodoView`, so contracts can speak of one mathematical record throughout.

use vstd::prelude::*;

verus! {

/// The mathematical value of a todo row (and of its output projection).
pub ghost struct TodoView {
    pub id: int,
    pub expire_at: Seq<char>,
    pub content: Option<Seq<char>>,
    pub is_finished: bool,
}

/// The mathematical value of an update request: each field is independently
/// present or absent.
pub ghost struct UpdateView {
    pub expire_at: Option<Seq<char>>,
    pub content: Option<Seq<char>>,
}

/// The mathematical value of a creation request.
pub ghost struct CreateView {
    pub expire_at: Seq<char>,
    pub content: Option<Seq<char>>,
}

/// The abstract value of an optional string.
pub open spec fn opt_str_view(o: Option<String>) -> Option<Seq<char>> {
    match o {
        Option::Some(s) => Option::Some(s@),
        Option::None => Option::None,
    }
}

/// The persisted todo entity.
#[derive(Debug, Clone, PartialEq, Eq)]
pub struct Todo {
    pub id: i32,
    pub expire_at: String,
    pub content: Option<String>,
    pub is_finished: bool,
}

impl View for Todo {
    type V = TodoView;

    open spec fn view(&self) -> TodoView {
        TodoView {
            id: self.id as int,
            expire_at: self.expire_at@,
            content: opt_str_view(self.content),
            is_finished: self.is_finished,
        }
    }
}

/// Creation request: the deadline is required, the text optional. The
/// finished flag is never client-settable at creation.
#[derive(Debug, Clone, PartialEq, Eq)]
pub struct CreateTodoDto {
    pub expire_at: String,
    pub content: Option<String>,
}

impl View for CreateTodoDto {
    type V = CreateView;

    open spec fn view(&self) -> CreateView {
        CreateView { expire_at: self.expire_at@, content: opt_str_view(self.content) }
    }
}

/// Update request: both fields optional; whether an absent field is kept or
/// cleared depends on the operation (replace vs partial update).
#[derive(Debug, Clone, PartialEq, Eq)]
pub struct UpdateTodoDto {
    pub expire_at: Option<String>,
    pub content: Option<String>,
}

impl View for UpdateTodoDto {
    type V = UpdateView;

    open spec fn view(&self) -> UpdateView {
        UpdateView { expire_at: opt_str_view(self.expire_at), content: opt_str_view(self.content) }
    }
}

/// Read-only output projection of a todo row.
#[derive(Debug, Clone, PartialEq, Eq)]
pub struct TodoDto {
    pub id: i32,
    pub expire_at: String,
    pub content: Option<String>,
    pub is_finished: bool,
}

impl View for TodoDto {
    type V = TodoView;

    open spec fn view(&self) -> TodoView {
        TodoView {
            id: self.id as int,
            expire_at: self.expire_at@,
            content: opt_str_view(self.content),
            is_finished: self.is_finished,
        }
    }
}

/// The row a creation request denotes once the store has assigned `id`:
/// fields taken from the request, `is_finished` always false.
pub open spec fn create_view(id: int, c: CreateView) -> TodoView {
    TodoView { id: id, expire_at: c.expire_at, content: c.content, is_finished: false }
}

/// Full replacement: `content` is overwritten with the request's (possibly
/// absent) value, `expire_at` falls back to the empty string when absent.
pub open spec fn replace_view(t: TodoView, u: UpdateView) -> TodoView {
    TodoView {
        id: t.id,
        expire_at: match u.expire_at {
            Option::Some(e) => e,
            Option::None => Seq::<char>::empty(),
        },
        content: u.content,
        is_finished: t.is_finished,
    }
}

/// Partial update: each field is overwritten only where the request carries
/// it; absent fields keep their stored value.
pub open spec fn patch_view(t: TodoView, u: UpdateView) -> TodoView {
    TodoView {
        id: t.id,
        expire_at: match u.expire_at {
            Option::Some(e) => e,
            Option::None => t.expire_at,
        },
        content: match u.content {
            Option::Some(c) => Option::Some(c),
            Option::None => t.content,
        },
        is_finished: t.is_finished,
    }
}

/// The same row with the finished flag set to `f`, all other fields kept.
pub open spec fn with_finished(t: TodoView, f: bool) -> TodoView {
    TodoView { id: t.id, expire_at: t.expire_at, content: t.content, is_finished: f }
}

impl Todo {
    /// The row a creation request denotes, with a caller-chosen id.
    pub fn of_create(id: i32, dto: CreateTodoDto) -> (t: Todo)
        ensures
            t@ == create_view(id as int, dto@),
    {
        Todo { id: id, expire_at: dto.expire_at, content: dto.content, is_finished: false }
    }

    /// An owned copy of the row, equal to the original.
    pub fn duplicate(&self) -> (t: Todo)
        ensures
            t == *self,
    {
        Todo {
            id: self.id,
            expire_at: self.expire_at.clone(),
            content: match &self.content {
                Option::Some(s) => Option::Some(s.clone()),
                Option::None => Option::None,
            },
            is_finished: self.is_finished,
        }
    }

    /// Apply a full replacement to this row.
    pub fn replaced(self, dto: UpdateTodoDto) -> (t: Todo)
        ensures
            t@ == replace_view(self@, dto@),
    {
        Todo {
            id: self.id,
            expire_at: match dto.expire_at {
                Option::Some(e) => e,
                Option::None => String::new(),
            },
            content: dto.content,
            is_finished: self.is_finished,
        }
    }

    /// Apply a partial update to this row.
    pub fn patched(self, dto: UpdateTodoDto) -> (t: Todo)
        ensures
            t@ == patch_view(self@, dto@),
    {
        Todo {
            id: self.id,
            expire_at: match dto.expire_at {
                Option::Some(e) => e,
                Option::None => self.expire_at,
            },
            content: match dto.content {
                Option::Some(c) => Option::Some(c),
                Option::None => self.content,
            },
            is_finished: self.is_finished,
        }
    }

    /// The same row with the finished flag set to `f`.
    pub fn finished(self, f: bool) -> (t: Todo)
        ensures
            t@ == with_finished(self@, f),
    {
        Todo { id: self.id, expire_at: self.expire_at, content: self.content, is_finished: f }
    }
}

impl TodoDto {
    /// The output projection of a borrowed row.
    pub fn of(t: &Todo) -> (d: TodoDto)
        ensures
            d@ == t@,
    {
        let c = t.duplicate();
        TodoDto { id: c.id, expire_at: c.expire_at, content: c.content, is_finished: c.is_finished }
    }
}

impl From<Todo> for TodoDto {
    /// The output projection of a row; field for field.
    fn from(t: Todo) -> (d: TodoDto) {
        TodoDto { id: t.id, expire_at: t.expire_at, content: t.content, is_finished: t.is_finished }
    }
}

impl vstd::std_specs::convert::FromSpecImpl<Todo> for TodoDto {
    open spec fn obeys_from_spec() -> bool {
        true
    }

    open spec fn from_spec(t: Todo) -> TodoDto {
        TodoDto { id: t.id, expire_at: t.expire_at, content: t.content, is_finished: t.is_finished }
    }
}

} // verus!
