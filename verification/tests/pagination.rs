use story_gateway::pagination::{
    Pagination, DEFAULT_CHAPTER_PAGE_SIZE, DEFAULT_PAGE, DEFAULT_PAGE_SIZE,
};

#[test]
fn defaults_are_one_ten_and_fifty() {
    assert_eq!(DEFAULT_PAGE, 1);
    assert_eq!(DEFAULT_PAGE_SIZE, 10);
    assert_eq!(DEFAULT_CHAPTER_PAGE_SIZE, 50);
}

#[test]
fn offset_is_the_number_of_results_before_the_page() {
    assert_eq!(Pagination::stories(1, 10).offset(), 0);
    assert_eq!(Pagination::stories(2, 5).offset(), 5);
    assert_eq!(Pagination::stories(3, 10).offset(), 20);
    assert_eq!(Pagination::chapters(7, 50).offset(), 300);
    assert_eq!(Pagination::stories(1, usize::MAX).offset(), 0);
}

#[test]
fn offset_stops_at_the_largest_word() {
    assert_eq!(Pagination::stories(usize::MAX, usize::MAX).offset(), usize::MAX);
    assert_eq!(Pagination::stories(3, usize::MAX).offset(), usize::MAX);
    assert_eq!(Pagination::stories(2, usize::MAX).offset(), usize::MAX);
}

#[test]
fn total_pages_rounds_up() {
    let ten = Pagination::stories(1, 10);
    assert_eq!(ten.total_pages(0), 0);
    assert_eq!(ten.total_pages(1), 1);
    assert_eq!(ten.total_pages(10), 1);
    assert_eq!(ten.total_pages(11), 2);
    assert_eq!(ten.total_pages(95), 10);
    assert_eq!(ten.total_pages(100), 10);
    assert_eq!(ten.total_pages(101), 11);
    assert_eq!(Pagination::stories(1, 1).total_pages(u64::MAX), u64::MAX);
    assert_eq!(Pagination::stories(1, 2).total_pages(u64::MAX), 1 << 63);
}

#[test]
fn page_zero_is_the_first_page() {
    let p = Pagination::stories(0, 10);
    assert_eq!(p, Pagination { page: 1, size: 10 });
    assert_eq!(p.offset(), 0);
}

#[test]
fn size_zero_is_the_default_size() {
    assert_eq!(Pagination::stories(2, 0), Pagination { page: 2, size: 10 });
    assert_eq!(Pagination::chapters(2, 0), Pagination { page: 2, size: 50 });
    assert_eq!(Pagination::stories(2, 0).total_pages(25), 3);
}

#[test]
fn other_requests_are_served_as_made() {
    assert_eq!(Pagination::stories(4, 7), Pagination { page: 4, size: 7 });
    assert_eq!(Pagination::chapters(4, 7), Pagination { page: 4, size: 7 });
    assert!(Pagination::stories(0, 0).is_wf());
    assert!(!Pagination { page: 0, size: 3 }.is_wf());
    assert!(!Pagination { page: 3, size: 0 }.is_wf());
}
