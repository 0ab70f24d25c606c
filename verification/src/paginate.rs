//! Page requests as they arrive in a query string, and the page arithmetic of
//! list replies.

use vstd::prelude::*;
use vstd::string::*;
use crate::error_app::{AppError, AppErrorView};
use crate::text::{parse_u32, u32_parse};

verus! {

/// A page request that has been read and checked: both numbers are positive.
#[derive(Debug, Clone, Copy, PartialEq, Eq, Structural)]
pub struct PaginationFrom {
    pub page: u32,
    pub page_size: u32,
}

/// A page request as it stands in a query string. An empty text means that
/// the caller left the number out.
#[derive(Debug, Clone)]
pub struct Pagination {
    pub page: String,
    pub page_size: String,
}

/// The page request that two parsing outcomes amount to. The page is looked
/// at first; a number must parse before it is held to be positive.
pub open spec fn pagination_of(
    page: Result<u32, Seq<char>>,
    page_size: Result<u32, Seq<char>>,
) -> Result<PaginationFrom, AppErrorView> {
    match page {
        Err(e) => Err(AppErrorView::BadRequest("Page must be a int: "@ + e)),
        Ok(page) => match page_size {
            Err(e) => Err(AppErrorView::BadRequest("Page size must be a int: "@ + e)),
            Ok(page_size) => if page == 0 {
                Err(AppErrorView::BadRequest("Page must be greater than 0"@))
            } else if page_size == 0 {
                Err(AppErrorView::BadRequest("Page size must be greater than 0"@))
            } else {
                Ok(PaginationFrom { page, page_size })
            },
        },
    }
}

/// The text of a field, or the default where the caller left it out.
pub open spec fn text_or(text: Seq<char>, default: Seq<char>) -> Seq<char> {
    if text.len() == 0 {
        default
    } else {
        text
    }
}

/// Whether an executable outcome is the mathematical one.
pub open spec fn is_pagination(
    got: Result<PaginationFrom, AppError>,
    expected: Result<PaginationFrom, AppErrorView>,
) -> bool {
    match got {
        Ok(p) => expected == Ok::<PaginationFrom, AppErrorView>(p),
        Err(e) => expected == Err::<PaginationFrom, AppErrorView>(e@),
    }
}

/// The number of rows to skip before page `page`: the rows of all pages
/// before it, held at the largest number the store can take.
pub open spec fn page_offset(p: PaginationFrom) -> int {
    let rows = (p.page - 1) * p.page_size;
    if p.page == 0 {
        0
    } else if rows > i64::MAX {
        i64::MAX as int
    } else {
        rows
    }
}

impl Pagination {
    /// Checks a page request whose two numbers have been parsed.
    pub fn from_parsed(page: Result<u32, String>, page_size: Result<u32, String>) -> (r: Result<
        PaginationFrom,
        AppError,
    >)
        ensures
            is_pagination(
                r,
                pagination_of(
                    match page {
                        Ok(n) => Ok::<u32, Seq<char>>(n),
                        Err(e) => Err::<u32, Seq<char>>(e@),
                    },
                    match page_size {
                        Ok(n) => Ok::<u32, Seq<char>>(n),
                        Err(e) => Err::<u32, Seq<char>>(e@),
                    },
                ),
            ),
    {
        let page = match page {
            Ok(page) => page,
            Err(e) => {
                return Err(AppError::BadRequest("Page must be a int: ".to_owned().concat(e.as_str())));
            },
        };
        let page_size = match page_size {
            Ok(page_size) => page_size,
            Err(e) => {
                return Err(
                    AppError::BadRequest("Page size must be a int: ".to_owned().concat(e.as_str())),
                );
            },
        };
        if page == 0 {
            return Err(AppError::bad_request("Page must be greater than 0"));
        }
        if page_size == 0 {
            return Err(AppError::bad_request("Page size must be greater than 0"));
        }
        Ok(PaginationFrom { page, page_size })
    }

    /// Reads and checks a page request: both texts must be decimal numbers
    /// greater than zero.
    pub fn new(page: String, page_size: String) -> (r: Result<PaginationFrom, AppError>)
        ensures
            is_pagination(r, pagination_of(u32_parse(page@), u32_parse(page_size@))),
    {
        let page = parse_u32(page.as_str());
        let page_size = parse_u32(page_size.as_str());
        Pagination::from_parsed(page, page_size)
    }

    /// Reads and checks the page request of a list query, with page 1 and
    /// ten rows a page where the caller left a number out.
    pub fn resolve(&self) -> (r: Result<PaginationFrom, AppError>)
        ensures
            is_pagination(
                r,
                pagination_of(
                    u32_parse(text_or(self.page@, "1"@)),
                    u32_parse(text_or(self.page_size@, "10"@)),
                ),
            ),
    {
        let page = if self.page.as_str().unicode_len() == 0 {
            "1".to_owned()
        } else {
            self.page.clone()
        };
        let page_size = if self.page_size.as_str().unicode_len() == 0 {
            "10".to_owned()
        } else {
            self.page_size.clone()
        };
        Pagination::new(page, page_size)
    }
}

impl PaginationFrom {
    /// The number of rows a list query takes.
    pub fn limit(&self) -> (rows: i64)
        ensures
            rows == self.page_size,
    {
        self.page_size as i64
    }

    /// The number of rows a list query skips.
    pub fn offset(&self) -> (rows: i64)
        ensures
            rows == page_offset(*self),
    {
        if self.page == 0 {
            return 0;
        }
        let before: u64 = (self.page - 1) as u64;
        let size: u64 = self.page_size as u64;
        assert(before * size <= 0xffff_ffff * 0xffff_ffff) by (nonlinear_arith)
            requires
                before <= 0xffff_ffff,
                size <= 0xffff_ffff,
        ;
        let rows: u64 = before * size;
        if rows > 0x7fff_ffff_ffff_ffff {
            i64::MAX
        } else {
            rows as i64
        }
    }
}

/// The number of pages that `total_count` rows fill at `page_size` rows a
/// page; every count of pages is held at the largest number a `u32` can take.
pub open spec fn total_pages(total_count: i64, page_size: u32) -> u32 {
    if total_count <= 0 {
        0
    } else if page_size == 0 {
        u32::MAX
    } else {
        let pages = (total_count + page_size - 1) / (page_size as int);
        if pages > u32::MAX {
            u32::MAX
        } else {
            pages as u32
        }
    }
}

/// The page that is shown for a request of `page`: at least the first, at
/// most the last.
pub open spec fn shown_page(page: u32, pages: u32) -> u32 {
    let at_least_one = if page < 1 {
        1u32
    } else {
        page
    };
    let last = if pages < 1 {
        1u32
    } else {
        pages
    };
    if at_least_one < last {
        at_least_one
    } else {
        last
    }
}

/// Where a page stands among the pages of a list.
#[derive(Debug, Clone, Copy, PartialEq, Eq, Structural)]
pub struct PagePosition {
    pub total_pages: u32,
    pub current_page: u32,
    pub next_page: Option<i64>,
    pub previous_page: Option<i64>,
    pub first_page: u32,
    pub last_page: u32,
    pub has_next_page: bool,
}

/// The position of page `page` in a list of `total_count` rows.
pub open spec fn page_position(total_count: i64, page: u32, page_size: u32) -> PagePosition {
    let pages = total_pages(total_count, page_size);
    let current = shown_page(page, pages);
    PagePosition {
        total_pages: pages,
        current_page: current,
        next_page: if current < pages {
            Some((current + 1) as i64)
        } else {
            None
        },
        previous_page: if current > 1 {
            Some((current - 1) as i64)
        } else {
            None
        },
        first_page: 1,
        last_page: if pages < 1 {
            1
        } else {
            pages
        },
        has_next_page: current < pages,
    }
}

impl PagePosition {
    /// Works out where page `page` stands in a list of `total_count` rows shown
    /// `page_size` rows a page.
    pub fn locate(total_count: i64, page: u32, page_size: u32) -> (p: PagePosition)
        ensures
            p == page_position(total_count, page, page_size),
    {
        let pages: u32 = if total_count <= 0 {
            0
        } else if page_size == 0 {
            u32::MAX
        } else {
            let size: i64 = page_size as i64;
            let full: i64 = (total_count - 1) / size + 1;
            assert(full == (total_count + size - 1) / (size as int)) by (nonlinear_arith)
                requires
                    full == (total_count - 1) / (size as int) + 1,
                    size > 0,
            ;
            if full > 0xffff_ffff {
                u32::MAX
            } else {
                full as u32
            }
        };
        let at_least_one: u32 = if page < 1 {
            1
        } else {
            page
        };
        let last: u32 = if pages < 1 {
            1
        } else {
            pages
        };
        let current: u32 = if at_least_one < last {
            at_least_one
        } else {
            last
        };
        let next_page = if current < pages {
            Some((current + 1) as i64)
        } else {
            None
        };
        let previous_page = if current > 1 {
            Some((current - 1) as i64)
        } else {
            None
        };
        PagePosition {
            total_pages: pages,
            current_page: current,
            next_page,
            previous_page,
            first_page: 1,
            last_page: last,
            has_next_page: current < pages,
        }
    }
}

} // verus!
