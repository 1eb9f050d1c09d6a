use todo_api::controller::delete_todo;
use todo_api::controller::delete_todo_finish;
use todo_api::controller::get_todo;
use todo_api::controller::get_todos;
use todo_api::controller::patch_todo;
use todo_api::controller::post_todo;
use todo_api::controller::put_todo;
use todo_api::controller::put_todo_finish;
use todo_api::controller::TodoResponse;
use todo_api::paged_list::PagedListQueryParams;
use todo_api::store::AppError;
use todo_api::store::TodoStore;
use todo_api::controller::location_of;
use todo_api::decimal::decimal_string;
use todo_api::decimal::decimal_string_i32;
use todo_api::CreateTodoDto;
use todo_api::TodoDto;
use todo_api::UpdateTodoDto;

fn created(r: TodoResponse) -> TodoDto {
    match r {
        TodoResponse::Created(d) => d,
        other => panic!("expected Created, got status {}", other.status_code()),
    }
}

fn item(r: TodoResponse) -> TodoDto {
    match r {
        TodoResponse::OkItem(d) => d,
        other => panic!("expected OkItem, got status {}", other.status_code()),
    }
}

fn milk_dto() -> CreateTodoDto {
    CreateTodoDto { expire_at: "2099-01-01".into(), content: Some("buy milk".into()) }
}

#[test]
fn create_then_get_roundtrips_the_row() {
    let mut s = TodoStore::new();
    let r = post_todo(&mut s, milk_dto());
    assert_eq!(r.status_code(), 201);
    let d = created(r);
    let got = item(get_todo(&s, d.id));
    assert_eq!(
        got,
        TodoDto {
            id: d.id,
            expire_at: "2099-01-01".into(),
            content: Some("buy milk".into()),
            is_finished: false,
        }
    );
}

#[test]
fn ids_are_assigned_sequentially_and_never_reused() {
    let mut s = TodoStore::new();
    let a = created(post_todo(&mut s, milk_dto()));
    let b = created(post_todo(&mut s, milk_dto()));
    assert_eq!((a.id, b.id), (1, 2));
    assert_eq!(delete_todo(&mut s, b.id), TodoResponse::NoContent);
    let c = created(post_todo(&mut s, milk_dto()));
    assert_eq!(c.id, 3);
}

#[test]
fn patch_with_content_only_keeps_expire_at() {
    let mut s = TodoStore::new();
    let d = created(post_todo(&mut s, milk_dto()));
    let r = patch_todo(
        &mut s,
        d.id,
        UpdateTodoDto { expire_at: None, content: Some("updated".into()) },
    );
    assert_eq!(r.status_code(), 201);
    let patched = created(r);
    assert_eq!(patched.expire_at, "2099-01-01");
    assert_eq!(patched.content, Some("updated".into()));
    assert_eq!(patched.is_finished, false);
    // and the stored row agrees
    assert_eq!(item(get_todo(&s, d.id)), patched);
}

#[test]
fn patch_with_expire_at_only_keeps_content() {
    let mut s = TodoStore::new();
    let d = created(post_todo(&mut s, milk_dto()));
    let patched = created(patch_todo(
        &mut s,
        d.id,
        UpdateTodoDto { expire_at: Some("2100-06-30".into()), content: None },
    ));
    assert_eq!(patched.expire_at, "2100-06-30");
    assert_eq!(patched.content, Some("buy milk".into()));
}

#[test]
fn put_with_empty_dto_clears_both_fields() {
    let mut s = TodoStore::new();
    let d = created(post_todo(&mut s, milk_dto()));
    let r = put_todo(&mut s, d.id, UpdateTodoDto { expire_at: None, content: None });
    assert_eq!(r.status_code(), 201);
    let replaced = created(r);
    assert_eq!(replaced.expire_at, "");
    assert_eq!(replaced.content, None);
    assert_eq!(replaced.id, d.id);
    assert_eq!(item(get_todo(&s, d.id)).content, None);
}

#[test]
fn put_overwrites_both_fields_when_present() {
    let mut s = TodoStore::new();
    let d = created(post_todo(&mut s, milk_dto()));
    let replaced = created(put_todo(
        &mut s,
        d.id,
        UpdateTodoDto { expire_at: Some("2100-01-01".into()), content: Some("new".into()) },
    ));
    assert_eq!(replaced.expire_at, "2100-01-01");
    assert_eq!(replaced.content, Some("new".into()));
}

#[test]
fn delete_is_idempotent_and_always_204() {
    let mut s = TodoStore::new();
    let r = delete_todo(&mut s, 42);
    assert_eq!(r.status_code(), 204);
    assert_eq!(r, TodoResponse::NoContent);
    let d = created(post_todo(&mut s, milk_dto()));
    assert_eq!(delete_todo(&mut s, d.id), TodoResponse::NoContent);
    assert_eq!(delete_todo(&mut s, d.id), TodoResponse::NoContent);
}

#[test]
fn finish_then_unfinish_roundtrips_the_flag() {
    let mut s = TodoStore::new();
    let d = created(post_todo(&mut s, milk_dto()));
    let up = created(put_todo_finish(&mut s, d.id));
    assert_eq!(up.is_finished, true);
    assert_eq!(up.expire_at, d.expire_at);
    assert_eq!(up.content, d.content);
    let down = created(delete_todo_finish(&mut s, d.id));
    assert_eq!(down, d);
}

#[test]
fn get_on_missing_id_is_404() {
    let s = TodoStore::new();
    let r = get_todo(&s, 7);
    assert_eq!(r.status_code(), 404);
    assert_eq!(r, TodoResponse::NotFound);
}

#[test]
fn get_after_delete_is_404() {
    let mut s = TodoStore::new();
    let d = created(post_todo(&mut s, milk_dto()));
    assert_eq!(get_todo(&s, d.id).status_code(), 200);
    delete_todo(&mut s, d.id);
    assert_eq!(get_todo(&s, d.id), TodoResponse::NotFound);
}

#[test]
fn mutations_on_missing_id_are_404() {
    let mut s = TodoStore::new();
    let dto = UpdateTodoDto { expire_at: None, content: Some("x".into()) };
    assert_eq!(put_todo(&mut s, 9, dto.clone()), TodoResponse::NotFound);
    assert_eq!(patch_todo(&mut s, 9, dto), TodoResponse::NotFound);
    assert_eq!(put_todo_finish(&mut s, 9), TodoResponse::NotFound);
    assert_eq!(delete_todo_finish(&mut s, 9), TodoResponse::NotFound);
}

#[test]
fn list_returns_the_requested_page_of_projections() {
    let mut s = TodoStore::new();
    for i in 0..5 {
        post_todo(
            &mut s,
            CreateTodoDto { expire_at: format!("206{}-01-01", i), content: None },
        );
    }
    let q = PagedListQueryParams { page: Some(2), page_size: Some(2) };
    let r = get_todos(&s, &q);
    assert_eq!(r.status_code(), 200);
    match r {
        TodoResponse::OkList(list) => {
            assert_eq!(list.page, 2);
            assert_eq!(list.page_size, 2);
            assert_eq!(list.total, 3);
            let ids: Vec<i32> = list.data.iter().map(|d| d.id).collect();
            assert_eq!(ids, vec![3, 4]);
            assert_eq!(list.data[0].expire_at, "2062-01-01");
        },
        _ => panic!("expected OkList"),
    }
}

#[test]
fn status_codes_cover_the_whole_vocabulary() {
    assert_eq!(TodoResponse::NoContent.status_code(), 204);
    assert_eq!(TodoResponse::NotFound.status_code(), 404);
    assert_eq!(TodoResponse::ServerError("boom".into()).status_code(), 500);
    let mut s = TodoStore::new();
    let d = created(post_todo(&mut s, milk_dto()));
    assert_eq!(get_todo(&s, d.id).status_code(), 200);
    let q = PagedListQueryParams { page: None, page_size: None };
    assert_eq!(get_todos(&s, &q).status_code(), 200);
}

#[test]
fn error_messages_carry_their_cause() {
    assert_eq!(AppError::StorageError("db gone".into()).into_message(), "db gone");
    assert_eq!(AppError::NotFound.into_message(), "not found");
    assert_eq!(AppError::ValidationFailure.into_message(), "validation failure");
}

#[test]
fn location_is_the_bare_id_string() {
    let mut s = TodoStore::new();
    let a = created(post_todo(&mut s, milk_dto()));
    let b = created(post_todo(&mut s, milk_dto()));
    assert_eq!(location_of(&a), "1");
    assert_eq!(location_of(&b), "2");
}

#[test]
fn decimal_rendering_matches_the_usual_numerals() {
    assert_eq!(decimal_string(0), "0");
    assert_eq!(decimal_string(7), "7");
    assert_eq!(decimal_string(10), "10");
    assert_eq!(decimal_string(105), "105");
    assert_eq!(decimal_string(18446744073709551615), "18446744073709551615");
    assert_eq!(decimal_string_i32(-42), "-42");
    assert_eq!(decimal_string_i32(-2147483648), "-2147483648");
    assert_eq!(decimal_string_i32(2147483647), "2147483647");
}
