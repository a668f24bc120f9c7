//! Pagination window over a result set with a fixed page size.

use vstd::prelude::*;

verus! {

/// Number of rows shown on one page, and of page numbers in one window.
pub const PAGE_SIZE: u64 = 5;

/// Number of pages needed to show `total_count` rows.
pub open spec fn page_count(total_count: int) -> int {
    (total_count + PAGE_SIZE - 1) / (PAGE_SIZE as int)
}

/// The page that is shown when `page` is asked for: the page itself where
/// the result has it, else the nearest page that the result has. It is
/// meant for a result with one page or more.
pub open spec fn current_page(page: int, total_count: int) -> int {
    if page < 1 {
        1
    } else if page > page_count(total_count) {
        page_count(total_count)
    } else {
        page
    }
}

/// First page number of the window around the page `current`: the windows
/// are the runs of five that begin with page one.
pub open spec fn window_start(current: int) -> int {
    (current - 1) / (PAGE_SIZE as int) * PAGE_SIZE + 1
}

/// Last page number of the window around the page `current`: four past the
/// first, capped at the number of pages.
pub open spec fn window_end(current: int, total_count: int) -> int {
    if window_start(current) + 4 <= page_count(total_count) {
        window_start(current) + 4
    } else {
        page_count(total_count)
    }
}

/// The page numbers of the window around the page that is shown,
/// ascending; none where the result has no page.
pub open spec fn window(page: int, total_count: int) -> Seq<int> {
    if page_count(total_count) < 1 {
        Seq::empty()
    } else {
        let first = window_start(current_page(page, total_count));
        let last = window_end(current_page(page, total_count), total_count);
        Seq::new((last - first + 1) as nat, |i: int| first + i)
    }
}

/// What a `Page` holds, as mathematical values.
pub struct PageView {
    pub total_pages: int,
    pub has_previous: bool,
    pub has_next: bool,
    pub page_range: Seq<int>,
}

/// The model of the page a caller asked for, out of `total_count` rows: the
/// page that is shown has a page before it unless it is the first, and one
/// after it unless it is the last; a result without pages has neither.
pub open spec fn page_of(page: int, total_count: int) -> PageView {
    PageView {
        total_pages: page_count(total_count),
        has_previous: page_count(total_count) >= 1 && current_page(page, total_count) > 1,
        has_next: page_count(total_count) >= 1 && current_page(page, total_count) < page_count(
            total_count,
        ),
        page_range: window(page, total_count),
    }
}

pub struct Page {
    total_pages: u64,
    has_previous: bool,
    has_next: bool,
    page_range: Vec<u64>,
}

impl View for Page {
    type V = PageView;

    closed spec fn view(&self) -> PageView {
        PageView {
            total_pages: self.total_pages as int,
            has_previous: self.has_previous,
            has_next: self.has_next,
            page_range: self.page_range@.map_values(|n: u64| n as int),
        }
    }
}

impl Page {
    pub fn new(page: u64, total_count: u64) -> (p: Page)
        ensures
            p@ == page_of(page as int, total_count as int),
    {
        let total_pages: u64 = if total_count % PAGE_SIZE == 0 {
            total_count / PAGE_SIZE
        } else {
            total_count / PAGE_SIZE + 1
        };
        let mut page_range: Vec<u64> = Vec::new();
        if total_pages == 0 {
            let p = Page { total_pages, has_previous: false, has_next: false, page_range };
            assert(p@.page_range =~= window(page as int, total_count as int));
            return p;
        }
        let current: u64 = if page < 1 {
            1
        } else if page > total_pages {
            total_pages
        } else {
            page
        };
        let start_page: u64 = (current - 1) / PAGE_SIZE * PAGE_SIZE + 1;
        let end_page: u64 = if start_page + 4 <= total_pages {
            start_page + 4
        } else {
            total_pages
        };
        let mut next: u64 = start_page;
        while next <= end_page
            invariant
                start_page <= next <= end_page + 1,
                end_page <= total_pages,
                total_pages < u64::MAX,
                page_range@.len() == next - start_page,
                forall|i: int|
                    0 <= i < page_range@.len() ==> #[trigger] page_range@[i] == start_page + i,
            decreases end_page + 1 - next,
        {
            page_range.push(next);
            next = next + 1;
        }
        let p = Page {
            total_pages,
            has_previous: current > 1,
            has_next: current < total_pages,
            page_range,
        };
        assert(p@.page_range =~= window(page as int, total_count as int));
        p
    }

    pub fn total_pages(&self) -> (n: u64)
        ensures
            n == self@.total_pages,
    {
        self.total_pages
    }

    pub fn has_previous(&self) -> (b: bool)
        ensures
            b == self@.has_previous,
    {
        self.has_previous
    }

    pub fn has_next(&self) -> (b: bool)
        ensures
            b == self@.has_next,
    {
        self.has_next
    }

    pub fn page_range(&self) -> (r: &Vec<u64>)
        ensures
            r@.map_values(|n: u64| n as int) == self@.page_range,
    {
        &self.page_range
    }
}

/// The pages are just enough for the rows: the last page is not empty, and
/// no row is left over.
pub proof fn pages_hold_all_rows(total_count: int)
    requires
        0 <= total_count,
    ensures
        0 <= page_count(total_count),
        (page_count(total_count) - 1) * PAGE_SIZE < total_count || total_count == 0,
        total_count <= page_count(total_count) * PAGE_SIZE,
        total_count == 0 <==> page_count(total_count) == 0,
{
}

/// The page that is shown is a page of the result, and is the page asked
/// for where the result has that page.
pub proof fn current_page_is_clamped(page: int, total_count: int)
    requires
        1 <= total_count,
    ensures
        1 <= current_page(page, total_count) <= page_count(total_count),
        1 <= page <= page_count(total_count) ==> current_page(page, total_count) == page,
        page < 1 ==> current_page(page, total_count) == 1,
        page > page_count(total_count) ==> current_page(page, total_count) == page_count(
            total_count,
        ),
{
}

/// Asking for a page shows what asking for the page that is shown shows.
pub proof fn page_is_that_of_the_current_page(page: int, total_count: int)
    requires
        1 <= total_count,
    ensures
        page_of(page, total_count) == page_of(current_page(page, total_count), total_count),
{
    current_page_is_clamped(page, total_count);
    assert(window(page, total_count) =~= window(current_page(page, total_count), total_count));
}

/// The window holds at most five page numbers, each of them a page of the
/// result, in ascending order without a gap.
pub proof fn window_is_bounded(page: int, total_count: int)
    requires
        0 <= total_count,
    ensures
        window(page, total_count).len() <= PAGE_SIZE,
        forall|i: int|
            0 <= i < window(page, total_count).len() ==> 1 <= #[trigger] window(
                page,
                total_count,
            )[i] <= page_count(total_count),
        forall|i: int, j: int|
            0 <= i < window(page, total_count).len() && j == i + 1 && j < window(
                page,
                total_count,
            ).len() ==> #[trigger] window(page, total_count)[j] == #[trigger] window(
                page,
                total_count,
            )[i] + 1,
{
}

/// The window of a result that has a page is not empty, and holds the page
/// that is shown.
pub proof fn window_holds_the_page(page: int, total_count: int)
    requires
        1 <= total_count,
    ensures
        window(page, total_count).len() >= 1,
        window(page, total_count).contains(current_page(page, total_count)),
        1 <= page <= page_count(total_count) ==> window(page, total_count).contains(page),
{
    let w = window(page, total_count);
    let current = current_page(page, total_count);
    let i = current - window_start(current);
    assert(0 <= i < w.len());
    assert(w[i] == current);
}

/// There is a page before the page that is shown unless it is the first,
/// and one after it unless it is the last.
pub proof fn neighbours_exist(page: int, total_count: int)
    requires
        1 <= total_count,
    ensures
        page_of(page, total_count).has_previous <==> current_page(page, total_count) != 1,
        page_of(page, total_count).has_next <==> current_page(page, total_count) != page_count(
            total_count,
        ),
{
}

/// A result without rows has no pages: no neighbours, and an empty window.
pub proof fn no_rows_give_no_pages(page: int)
    ensures
        !page_of(page, 0).has_previous,
        !page_of(page, 0).has_next,
        page_of(page, 0).page_range.len() == 0,
        page_of(page, 0).total_pages == 0,
{
}

} // verus!
