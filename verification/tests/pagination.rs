use todo_api::paged_list::PagedList;
use todo_api::paged_list::PagedListQueryParams;
use todo_api::TodoDto;

fn query_result() -> Vec<TodoDto> {
    vec![
        TodoDto {
            id: 1,
            content: Some("First thing todo".into()),
            expire_at: "0".into(),
            is_finished: true,
        },
        TodoDto { id: 2, content: Some("Na".into()), expire_at: "0".into(), is_finished: false },
        TodoDto { id: 3, content: Some("foo".into()), expire_at: "0".into(), is_finished: false },
        TodoDto { id: 4, content: Some("bar".into()), expire_at: "0".into(), is_finished: false },
        TodoDto { id: 5, content: Some("no".into()), expire_at: "0".into(), is_finished: false },
    ]
}

#[test]
fn from_paginator_works() {
    let q = PagedListQueryParams { page: Some(1), page_size: Some(2) };
    let list = PagedList::from_paginator(query_result(), &q);
    let expected = PagedList {
        page: 1,
        page_size: 2,
        // 5 items at 2 per page: 3 pages (the last one partial)
        total: 3,
        data: query_result()[..2].to_owned(),
    };
    assert_eq!(list, expected);
}

#[test]
fn absent_params_default_to_page_1_size_10() {
    let rows: Vec<u64> = (0..25).collect();
    let q = PagedListQueryParams { page: None, page_size: None };
    let list = PagedList::from_paginator(rows, &q);
    assert_eq!(list.page, 1);
    assert_eq!(list.page_size, 10);
    assert_eq!(list.total, 3);
    assert_eq!(list.data, (0..10).collect::<Vec<u64>>());
}

#[test]
fn zero_page_defaults_to_one() {
    let rows: Vec<u64> = (0..5).collect();
    let q = PagedListQueryParams { page: Some(0), page_size: Some(2) };
    let list = PagedList::from_paginator(rows, &q);
    assert_eq!(list.page, 1);
    assert_eq!(list.data, vec![0, 1]);
}

#[test]
fn page_offset_is_zero_based_internally() {
    let rows: Vec<u64> = (0..6).collect();
    let q = PagedListQueryParams { page: Some(2), page_size: Some(2) };
    let list = PagedList::from_paginator(rows, &q);
    // page 2 of size 2 covers offsets 2 and 3
    assert_eq!(list.data, vec![2, 3]);
}

#[test]
fn last_page_may_be_partial() {
    let rows: Vec<u64> = (0..5).collect();
    let q = PagedListQueryParams { page: Some(3), page_size: Some(2) };
    let list = PagedList::from_paginator(rows, &q);
    assert_eq!(list.data, vec![4]);
    assert_eq!(list.total, 3);
}

#[test]
fn page_beyond_last_is_empty_with_true_total() {
    let rows: Vec<u64> = (0..5).collect();
    let q = PagedListQueryParams { page: Some(99), page_size: Some(2) };
    let list = PagedList::from_paginator(rows, &q);
    assert!(list.data.is_empty());
    assert_eq!(list.total, 3);
    assert_eq!(list.page, 99);
}

#[test]
fn data_never_exceeds_page_size() {
    for page in 1..6u64 {
        for size in 1..5u64 {
            let rows: Vec<u64> = (0..7).collect();
            let q = PagedListQueryParams { page: Some(page), page_size: Some(size) };
            let list = PagedList::from_paginator(rows, &q);
            assert!(list.data.len() as u64 <= size);
        }
    }
}

#[test]
fn total_is_ceil_of_count_over_size() {
    let cases: Vec<(u64, u64, u64)> = vec![
        (0, 10, 0),
        (1, 10, 1),
        (10, 10, 1),
        (11, 10, 2),
        (10, 3, 4),
        (9, 3, 3),
        (1, 1, 1),
    ];
    for (count, size, expected) in cases {
        let rows: Vec<u64> = (0..count).collect();
        let q = PagedListQueryParams { page: Some(1), page_size: Some(size) };
        let list = PagedList::from_paginator(rows, &q);
        assert_eq!(list.total, expected, "count={} size={}", count, size);
    }
}

#[test]
fn total_does_not_depend_on_requested_page() {
    let mut totals: Vec<u64> = Vec::new();
    for page in 1..8u64 {
        let rows: Vec<u64> = (0..11).collect();
        let q = PagedListQueryParams { page: Some(page), page_size: Some(3) };
        totals.push(PagedList::from_paginator(rows, &q).total);
    }
    assert!(totals.iter().all(|t| *t == 4));
}
