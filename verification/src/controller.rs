//! The todo resource controller: one operation per inbound request shape,
//! each mapping the request and the store's outcome to a response.
//!
//! The response vocabulary mirrors the HTTP surface: 200 for reads, 201 for
//! creation and — preserved legacy behaviour — for every successful
//! mutation, 204 for deletion, 404 for a missing row, 500 with the error's
//! textual description for a storage failure.

use vstd::prelude::*;
use crate::decimal::dec_str;
use crate::decimal::decimal_string_i32;
use crate::paged_list::effective_page;
use crate::paged_list::effective_page_size;
use crate::paged_list::num_pages_spec;
use crate::paged_list::page_data;
use crate::paged_list::PagedList;
use crate::paged_list::PagedListQueryParams;
use crate::store::contains_id;
use crate::store::delete_spec;
use crate::store::find_spec;
use crate::store::update_spec;
use crate::store::TodoStore;
use crate::todo::create_view;
use crate::todo::patch_view;
use crate::todo::replace_view;
use crate::todo::with_finished;
use crate::todo::CreateTodoDto;
use crate::todo::TodoDto;
use crate::todo::TodoView;
use crate::todo::UpdateTodoDto;

verus! {

/// Everything a handler can answer, with its payload.
#[derive(Debug, PartialEq, Eq)]
pub enum TodoResponse {
    /// 200 with one page of rows.
    OkList(PagedList<TodoDto>),
    /// 200 with one row.
    OkItem(TodoDto),
    /// 201 with the created or mutated row.
    Created(TodoDto),
    /// 204, empty body.
    NoContent,
    /// 404, empty body.
    NotFound,
    /// 500 with the storage error's textual description.
    ServerError(String),
}

/// The status code each response carries.
pub open spec fn status_of(r: TodoResponse) -> int {
    match r {
        TodoResponse::OkList(_) => 200,
        TodoResponse::OkItem(_) => 200,
        TodoResponse::Created(_) => 201,
        TodoResponse::NoContent => 204,
        TodoResponse::NotFound => 404,
        TodoResponse::ServerError(_) => 500,
    }
}

impl TodoResponse {
    /// The HTTP status code of this response.
    pub fn status_code(&self) -> (c: u16)
        ensures
            c as int == status_of(*self),
    {
        match self {
            TodoResponse::OkList(_) => 200,
            TodoResponse::OkItem(_) => 200,
            TodoResponse::Created(_) => 201,
            TodoResponse::NoContent => 204,
            TodoResponse::NotFound => 404,
            TodoResponse::ServerError(_) => 500,
        }
    }
}

/// The Location header value of a created row: its id as a bare decimal
/// string, not a URI path — preserved legacy behaviour.
pub fn location_of(d: &TodoDto) -> (s: String)
    ensures
        d.id >= 0 ==> s@ == dec_str(d.id as int),
        d.id < 0 ==> s@ == seq!['-'] + dec_str(0 - d.id as int),
{
    decimal_string_i32(d.id)
}

/// The abstract contents of a sequence of output rows.
pub open spec fn dto_views_of(s: Seq<TodoDto>) -> Seq<TodoView> {
    s.map_values(|d: TodoDto| d@)
}

/// List one page of rows: the requested slice of the collection, projected
/// to output rows, with the total page count.
pub fn get_todos(store: &TodoStore, q: &PagedListQueryParams) -> (r: TodoResponse)
    requires
        store.wf(),
        q.page_size != Option::Some(0u64),
    ensures
        r matches TodoResponse::OkList(list) && {
            &&& list.page == effective_page(*q)
            &&& list.page_size == effective_page_size(*q)
            &&& list.total as int == num_pages_spec(
                store@.len() as int,
                effective_page_size(*q) as int,
            )
            &&& dto_views_of(list.data@) == page_data(
                store@,
                effective_page(*q) as int,
                effective_page_size(*q) as int,
            )
        },
{
    let all = store.find_all();
    let n = all.len();
    let mut dtos: Vec<TodoDto> = Vec::new();
    let mut i: usize = 0;
    while i < n
        invariant
            n == all@.len(),
            n == store@.len(),
            crate::store::views_of(all@) == store@,
            i <= n,
            dtos@.len() == i,
            forall|j: int| 0 <= j < i ==> #[trigger] dtos@[j]@ == store@[j],
        decreases n - i,
    {
        dtos.push(TodoDto::of(&all[i]));
        i = i + 1;
    }
    let ghost dv = dtos@;
    let list = PagedList::<TodoDto>::from_paginator(dtos, q);
    proof {
        assert(dto_views_of(dv) =~= store@);
        let p = effective_page(*q) as int;
        let s = effective_page_size(*q) as int;
        assert(dto_views_of(list.data@) =~= page_data(store@, p, s));
    }
    TodoResponse::OkList(list)
}

/// Fetch one row by id: 200 with its projection, or 404 when no row
/// carries the id.
pub fn get_todo(store: &TodoStore, id: i32) -> (r: TodoResponse)
    requires
        store.wf(),
    ensures
        contains_id(store@, id as int) ==> (r matches TodoResponse::OkItem(d) && find_spec(
            store@,
            id as int,
        ) == Some(d@)),
        !contains_id(store@, id as int) ==> r == TodoResponse::NotFound,
{
    match store.find_by_id(id) {
        Some(t) => TodoResponse::OkItem(TodoDto::from(t)),
        None => TodoResponse::NotFound,
    }
}

/// Create a row from the request: the store assigns the id, the row starts
/// unfinished, and the response carries its projection. Fails only when
/// the id space is exhausted.
pub fn post_todo(store: &mut TodoStore, dto: CreateTodoDto) -> (r: TodoResponse)
    requires
        old(store).wf(),
    ensures
        final(store).wf(),
        !old(store).at_capacity() ==> (r matches TodoResponse::Created(d) && {
            &&& d@ == create_view(old(store).fresh_id(), dto@)
            &&& final(store)@ == old(store)@.push(d@)
            &&& !contains_id(old(store)@, d@.id)
            &&& final(store).fresh_id() == old(store).fresh_id() + 1
        }),
        old(store).at_capacity() ==> (r is ServerError && final(store)@ == old(store)@),
{
    match store.insert(dto) {
        Ok(t) => TodoResponse::Created(TodoDto::from(t)),
        Err(e) => TodoResponse::ServerError(e.into_message()),
    }
}

/// Replace a row (PUT): `content` is overwritten with the request's
/// possibly absent value and `expire_at` falls back to the empty string, so
/// an empty request clears both. 404 when no row carries the id.
pub fn put_todo(store: &mut TodoStore, id: i32, dto: UpdateTodoDto) -> (r: TodoResponse)
    requires
        old(store).wf(),
    ensures
        final(store).wf(),
        final(store).fresh_id() == old(store).fresh_id(),
        !contains_id(old(store)@, id as int) ==> (r == TodoResponse::NotFound && final(store)@
            == old(store)@),
        contains_id(old(store)@, id as int) ==> (r matches TodoResponse::Created(d) && (find_spec(
            old(store)@,
            id as int,
        ) matches Some(t0) && {
            &&& d@ == replace_view(t0, dto@)
            &&& final(store)@ == update_spec(old(store)@, replace_view(t0, dto@))
        })),
{
    match store.find_by_id(id) {
        Some(t0) => {
            let new_t = t0.replaced(dto);
            match store.update(new_t) {
                Ok(u) => TodoResponse::Created(TodoDto::from(u)),
                Err(e) => TodoResponse::ServerError(e.into_message()),
            }
        },
        None => TodoResponse::NotFound,
    }
}

/// Partially update a row (PATCH): each field is overwritten only where the
/// request carries it. 404 when no row carries the id.
pub fn patch_todo(store: &mut TodoStore, id: i32, dto: UpdateTodoDto) -> (r: TodoResponse)
    requires
        old(store).wf(),
    ensures
        final(store).wf(),
        final(store).fresh_id() == old(store).fresh_id(),
        !contains_id(old(store)@, id as int) ==> (r == TodoResponse::NotFound && final(store)@
            == old(store)@),
        contains_id(old(store)@, id as int) ==> (r matches TodoResponse::Created(d) && (find_spec(
            old(store)@,
            id as int,
        ) matches Some(t0) && {
            &&& d@ == patch_view(t0, dto@)
            &&& final(store)@ == update_spec(old(store)@, patch_view(t0, dto@))
        })),
{
    match store.find_by_id(id) {
        Some(t0) => {
            let new_t = t0.patched(dto);
            match store.update(new_t) {
                Ok(u) => TodoResponse::Created(TodoDto::from(u)),
                Err(e) => TodoResponse::ServerError(e.into_message()),
            }
        },
        None => TodoResponse::NotFound,
    }
}

/// Delete a row by id: 204 whether or not a row carried the id — deletion
/// is idempotent by contract.
pub fn delete_todo(store: &mut TodoStore, id: i32) -> (r: TodoResponse)
    requires
        old(store).wf(),
    ensures
        final(store).wf(),
        final(store).fresh_id() == old(store).fresh_id(),
        r == TodoResponse::NoContent,
        final(store)@ == delete_spec(old(store)@, id as int),
{
    let _ = store.delete_by_id(id);
    TodoResponse::NoContent
}

/// Mark a row finished: its finished flag is set, every other field kept.
/// 404 when no row carries the id.
pub fn put_todo_finish(store: &mut TodoStore, id: i32) -> (r: TodoResponse)
    requires
        old(store).wf(),
    ensures
        final(store).wf(),
        final(store).fresh_id() == old(store).fresh_id(),
        !contains_id(old(store)@, id as int) ==> (r == TodoResponse::NotFound && final(store)@
            == old(store)@),
        contains_id(old(store)@, id as int) ==> (r matches TodoResponse::Created(d) && (find_spec(
            old(store)@,
            id as int,
        ) matches Some(t0) && {
            &&& d@ == with_finished(t0, true)
            &&& final(store)@ == update_spec(old(store)@, with_finished(t0, true))
        })),
{
    match store.find_by_id(id) {
        Some(t0) => {
            let new_t = t0.finished(true);
            match store.update(new_t) {
                Ok(u) => TodoResponse::Created(TodoDto::from(u)),
                Err(e) => TodoResponse::ServerError(e.into_message()),
            }
        },
        None => TodoResponse::NotFound,
    }
}

/// Mark a row unfinished: its finished flag is cleared, every other field
/// kept. 404 when no row carries the id.
pub fn delete_todo_finish(store: &mut TodoStore, id: i32) -> (r: TodoResponse)
    requires
        old(store).wf(),
    ensures
        final(store).wf(),
        final(store).fresh_id() == old(store).fresh_id(),
        !contains_id(old(store)@, id as int) ==> (r == TodoResponse::NotFound && final(store)@
            == old(store)@),
        contains_id(old(store)@, id as int) ==> (r matches TodoResponse::Created(d) && (find_spec(
            old(store)@,
            id as int,
        ) matches Some(t0) && {
            &&& d@ == with_finished(t0, false)
            &&& final(store)@ == update_spec(old(store)@, with_finished(t0, false))
        })),
{
    match store.find_by_id(id) {
        Some(t0) => {
            let new_t = t0.finished(false);
            match store.update(new_t) {
                Ok(u) => TodoResponse::Created(TodoDto::from(u)),
                Err(e) => TodoResponse::ServerError(e.into_message()),
            }
        },
        None => TodoResponse::NotFound,
    }
}

} // verus!
