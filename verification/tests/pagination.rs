use geekorm_sql::builder::pagination::Page;

#[test]
fn test_limit() {
    let page = Page::from(0);
    let sql = page.sql();
    assert_eq!(sql, "LIMIT 100");
}

#[test]
fn test_offset() {
    let page = Page::from(1);
    let sql = page.sql();
    assert_eq!(sql, "LIMIT 100 OFFSET 100");
}

#[test]
fn page_next_then_prev_returns() {
    let mut page = Page::new();
    page.next();
    page.next();
    assert_eq!(page.page(), 2);
    page.prev();
    assert_eq!(page.page(), 1);
    page.prev();
    page.prev();
    assert_eq!(page.page(), 0);
    let mut last = Page::from(u32::MAX);
    last.next();
    assert_eq!(last.page(), 0);
}

#[test]
fn page_count_rounds_up() {
    let mut page = Page::from((Some(0), Some(10), 95));
    assert_eq!(page.limit(), 10);
    assert_eq!(page.pages(), 10);
    page.set_total(100);
    assert_eq!(page.max(), 10);
    page.set_total(0);
    assert_eq!(page.pages(), 0);
    let zero = Page::from((Some(0), Some(0), 5));
    assert_eq!(zero.pages(), u32::MAX);
}

#[test]
fn page_limit_is_capped_and_default_has_no_offset() {
    let page = Page::from((3, 500));
    assert_eq!(page.limit(), 100);
    assert_eq!(page.offset(), 300);
    let page = Page::default();
    assert_eq!(page.offset(), 0);
    assert_eq!(page.sql(), "LIMIT 100");
    let page = Page::from((None, Some(7)));
    assert_eq!(page.page(), 0);
    assert_eq!(page.limit(), 7);
}
