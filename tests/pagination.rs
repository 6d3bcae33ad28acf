use rext_core::pagination::{default_limit, default_page, page_offset, PaginationMeta};

#[test]
fn query_defaults() {
    assert_eq!(default_page(), 1);
    assert_eq!(default_limit(), 25);
}

#[test]
fn offsets_and_page_counts() {
    assert_eq!(page_offset(1, 25), 0);
    assert_eq!(page_offset(3, 25), 50);
    assert_eq!(PaginationMeta::new(1, 25, 0).total_pages, 0);
    assert_eq!(PaginationMeta::new(1, 25, 25).total_pages, 1);
    assert_eq!(PaginationMeta::new(2, 25, 26).total_pages, 2);
    let m = PaginationMeta::new(4, 10, 95);
    assert_eq!(m, PaginationMeta { page: 4, limit: 10, total: 95, total_pages: 10 });
}
