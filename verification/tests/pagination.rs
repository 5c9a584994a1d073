use rre_backend::schemas::pagination::{Page, PageParams, DEFAULT_PAGE_SIZE, MAX_PAGE_SIZE};

fn params(page: Option<u32>, page_size: Option<u32>) -> PageParams {
    PageParams { page, page_size }
}

#[test]
fn defaults_are_first_page_of_twenty() {
    assert_eq!(PageParams::default().resolve(), (20, 0, 1, DEFAULT_PAGE_SIZE));
}

#[test]
fn page_zero_is_clamped_to_one_and_size_to_bounds() {
    assert_eq!(params(Some(0), Some(0)).resolve(), (1, 0, 1, 1));
    assert_eq!(params(Some(2), Some(500)).resolve(), (100, 100, 2, MAX_PAGE_SIZE));
}

#[test]
fn offset_skips_earlier_pages() {
    assert_eq!(params(Some(3), Some(10)).resolve(), (10, 20, 3, 10));
}

#[test]
fn largest_page_does_not_overflow() {
    let (limit, offset, page, size) = params(Some(u32::MAX), Some(100)).resolve();
    assert_eq!((limit, page, size), (100, u32::MAX, 100));
    assert_eq!(offset, (u32::MAX as i64 - 1) * 100);
}

#[test]
fn resolving_effective_values_again_is_stable() {
    let (_, _, page, size) = params(Some(0), Some(1000)).resolve();
    let again = params(Some(page), Some(size)).resolve();
    assert_eq!((again.2, again.3), (page, size));
}

#[test]
fn page_envelope_keeps_its_parts() {
    let p = Page::new(vec!["a", "b"], 2, 10, 12);
    assert_eq!(p.items, ["a", "b"]);
    assert_eq!((p.page, p.page_size, p.total), (2, 10, 12));
}
