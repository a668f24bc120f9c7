use petclinic::model::page::Page;

#[test]
fn first_page_of_several() {
    let page = Page::new(1, 23);
    assert_eq!(page.total_pages(), 5);
    assert!(!page.has_previous());
    assert!(page.has_next());
    assert_eq!(page.page_range(), &vec![1, 2, 3, 4, 5]);
}

#[test]
fn total_pages_rounds_up() {
    assert_eq!(Page::new(1, 0).total_pages(), 0);
    assert_eq!(Page::new(1, 1).total_pages(), 1);
    assert_eq!(Page::new(1, 5).total_pages(), 1);
    assert_eq!(Page::new(1, 6).total_pages(), 2);
    assert_eq!(Page::new(1, 10).total_pages(), 2);
    assert_eq!(Page::new(1, 11).total_pages(), 3);
}

#[test]
fn window_is_capped_at_the_last_page() {
    let page = Page::new(2, 12);
    assert_eq!(page.total_pages(), 3);
    assert!(page.has_previous());
    assert!(page.has_next());
    assert_eq!(page.page_range(), &vec![1, 2, 3]);
}

#[test]
fn last_page_has_no_next() {
    let page = Page::new(3, 12);
    assert!(page.has_previous());
    assert!(!page.has_next());
}

#[test]
fn the_window_is_the_run_of_five_that_holds_the_page() {
    let page = Page::new(5, 60);
    assert_eq!(page.total_pages(), 12);
    assert_eq!(page.page_range(), &vec![1, 2, 3, 4, 5]);
    let page = Page::new(6, 60);
    assert_eq!(page.page_range(), &vec![6, 7, 8, 9, 10]);
    let page = Page::new(10, 60);
    assert_eq!(page.page_range(), &vec![6, 7, 8, 9, 10]);
    let page = Page::new(11, 60);
    assert_eq!(page.page_range(), &vec![11, 12]);
}

#[test]
fn the_last_page_of_a_full_window_is_in_its_window() {
    let page = Page::new(5, 25);
    assert_eq!(page.total_pages(), 5);
    assert!(page.has_previous());
    assert!(!page.has_next());
    assert_eq!(page.page_range(), &vec![1, 2, 3, 4, 5]);
}

#[test]
fn page_zero_selects_the_first_window() {
    let page = Page::new(0, 7);
    assert!(!page.has_previous());
    assert!(page.has_next());
    assert_eq!(page.page_range(), &vec![1, 2]);
}

#[test]
fn empty_result_has_no_pages() {
    let page = Page::new(1, 0);
    assert_eq!(page.total_pages(), 0);
    assert!(!page.has_previous());
    assert!(!page.has_next());
    assert!(page.page_range().is_empty());
}

#[test]
fn a_page_past_the_last_is_shown_as_the_last() {
    let page = Page::new(7, 12);
    assert_eq!(page.total_pages(), 3);
    assert!(page.has_previous());
    assert!(!page.has_next());
    assert_eq!(page.page_range(), &vec![1, 2, 3]);
    let page = Page::new(2, 3);
    assert_eq!(page.total_pages(), 1);
    assert!(!page.has_previous());
    assert!(!page.has_next());
    assert_eq!(page.page_range(), &vec![1]);
}

#[test]
fn page_zero_of_one_page_has_no_neighbours() {
    let page = Page::new(0, 3);
    assert_eq!(page.total_pages(), 1);
    assert!(!page.has_previous());
    assert!(!page.has_next());
    assert_eq!(page.page_range(), &vec![1]);
}

#[test]
fn a_page_past_the_last_shows_what_the_last_page_shows() {
    for total_count in [1u64, 4, 5, 6, 25, 26, 61] {
        let total_pages = Page::new(1, total_count).total_pages();
        let last = Page::new(total_pages, total_count);
        for page in [total_pages + 1, total_pages + 5, u64::MAX - 1] {
            let shown = Page::new(page, total_count);
            assert_eq!(shown.has_previous(), last.has_previous());
            assert_eq!(shown.has_previous(), total_pages > 1);
            assert!(!shown.has_next());
            assert_eq!(shown.page_range(), last.page_range());
        }
    }
}

#[test]
fn every_page_of_the_result_is_in_its_window() {
    for total_count in [1u64, 5, 24, 25, 26, 103] {
        let total_pages = Page::new(1, total_count).total_pages();
        for page in 1..=total_pages {
            let shown = Page::new(page, total_count);
            let range = shown.page_range();
            assert!(!range.is_empty());
            assert!(range.len() <= 5);
            assert!(range.contains(&page));
            assert!(1 <= range[0]);
            assert!(*range.last().unwrap() <= total_pages);
            for i in 1..range.len() {
                assert_eq!(range[i], range[i - 1] + 1);
            }
            assert_eq!(shown.has_previous(), page > 1);
            assert_eq!(shown.has_next(), page < total_pages);
        }
    }
}

#[test]
fn largest_inputs_do_not_overflow() {
    let page = Page::new(u64::MAX, u64::MAX);
    let total_pages = u64::MAX / 5;
    assert_eq!(page.total_pages(), total_pages);
    assert!(page.has_previous());
    assert!(!page.has_next());
    assert_eq!(page.page_range(), &vec![total_pages - 2, total_pages - 1, total_pages]);
    let page = Page::new(u64::MAX, u64::MAX - 1);
    assert_eq!(page.total_pages(), total_pages);
    assert!(!page.has_next());
}
