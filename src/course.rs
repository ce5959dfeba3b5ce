//! The course catalog's plain types and the page arithmetic of its listings.
use vstd::prelude::*;

verus! {

/// A semester as the database stores it.
#[derive(Debug)]
pub struct SemesterDb {
    pub id: i64,
    pub name: String,
    pub start_date: String,
    pub end_date: String,
    pub is_current: bool,
}

/// A semester: its identity, name, calendar bounds and whether it is the
/// current one.
#[derive(Debug)]
pub struct Semester {
    pub id: i64,
    pub name: String,
    pub start_date: String,
    pub end_date: String,
    pub is_current: bool,
}

impl Semester {
    /// The semester of a database row, field for field.
    pub fn from_db(db: SemesterDb) -> (r: Semester)
        ensures
            r.id == db.id,
            r.name == db.name,
            r.start_date == db.start_date,
            r.end_date == db.end_date,
            r.is_current == db.is_current,
    {
        Semester {
            id: db.id,
            name: db.name,
            start_date: db.start_date,
            end_date: db.end_date,
            is_current: db.is_current,
        }
    }
}

/// A course of the school-wide catalog.
#[derive(Debug)]
pub struct PublicCourse {
    pub id: i64,
    pub course_name: String,
    pub teacher_name: String,
    pub teacher_id: Option<String>,
    pub location: String,
    pub day_of_week: i32,
    pub start_section: i32,
    pub end_section: i32,
    pub weeks_range: Vec<i32>,
    pub course_type: String,
    pub credits: Option<i32>,
    pub description: Option<String>,
}

/// Filters and page of a catalog listing.
#[derive(Debug)]
pub struct GetCoursesParams {
    pub semester_id: Option<i64>,
    pub name: Option<String>,
    pub teacher: Option<String>,
    pub page: i32,
    pub page_size: i32,
}

/// The number of pages of `page_size` items that `total` items fill.
pub open spec fn pages_for(total: int, page_size: int) -> int {
    (total + page_size - 1) / page_size
}

/// The number of pages of `page_size` items that `total` items fill.
pub fn page_count(total: i64, page_size: i64) -> (r: i64)
    requires
        total >= 0,
        page_size >= 1,
    ensures
        r == pages_for(total as int, page_size as int),
{
    let q = total / page_size;
    let rem = total % page_size;
    proof {
        assert(total as int == q * page_size + rem) by (nonlinear_arith)
            requires
                q == total as int / page_size as int,
                rem == total as int % page_size as int,
                page_size >= 1,
        ;
        if rem == 0 {
            assert((total + page_size - 1) / (page_size as int) == q) by (nonlinear_arith)
                requires
                    total as int == q * page_size,
                    page_size >= 1,
            ;
        } else {
            assert(q < i64::MAX) by (nonlinear_arith)
                requires
                    total as int == q * page_size + rem,
                    0 < rem < page_size,
                    total <= i64::MAX,
                    q >= 0,
            ;
            assert((total + page_size - 1) / (page_size as int) == q + 1) by (nonlinear_arith)
                requires
                    total as int == q * page_size + rem,
                    0 < rem < page_size,
                    page_size >= 1,
            ;
        }
    }
    if rem == 0 {
        q
    } else {
        q + 1
    }
}

/// The number of items before page `page` (counted from 1) of `page_size` items.
pub fn page_offset(page: i32, page_size: i32) -> (r: i64)
    ensures
        r == (page - 1) * page_size,
{
    let a: i64 = page as i64 - 1;
    let b: i64 = page_size as i64;
    proof {
        let bound: int = 4611686020574871552;
        if a >= 0 && b >= 0 {
            assert(a * b <= bound) by (nonlinear_arith)
                requires 0 <= a <= 2147483646, 0 <= b <= 2147483647, bound == 4611686020574871552;
            assert(a * b >= 0) by (nonlinear_arith) requires 0 <= a, 0 <= b;
        } else if a < 0 && b < 0 {
            assert(a * b <= bound) by (nonlinear_arith)
                requires -2147483649 <= a < 0, -2147483648 <= b < 0, bound == 4611686020574871552;
            assert(a * b >= 0) by (nonlinear_arith) requires a < 0, b < 0;
        } else if a < 0 {
            assert(a * b >= -bound) by (nonlinear_arith)
                requires -2147483649 <= a < 0, 0 <= b <= 2147483647, bound == 4611686020574871552;
            assert(a * b <= 0) by (nonlinear_arith) requires a < 0, 0 <= b;
        } else {
            assert(a * b >= -bound) by (nonlinear_arith)
                requires 0 <= a <= 2147483646, -2147483648 <= b < 0, bound == 4611686020574871552;
            assert(a * b <= 0) by (nonlinear_arith) requires 0 <= a, b < 0;
        }
    }
    a * b
}

/// Where a page stands in a listing.
#[derive(Debug)]
pub struct Pagination {
    pub total: i64,
    pub page: i32,
    pub page_size: i32,
    pub pages: i32,
}

impl Pagination {
    /// Page `page` of a listing of `total` items, `page_size` to a page.
    pub fn new(total: i64, page: i32, page_size: i32) -> (r: Pagination)
        requires
            total >= 0,
            page_size >= 1,
            pages_for(total as int, page_size as int) <= i32::MAX,
        ensures
            r.total == total,
            r.page == page,
            r.page_size == page_size,
            r.pages == pages_for(total as int, page_size as int),
    {
        let pages = page_count(total, page_size as i64);
        Pagination { total, page, page_size, pages: pages as i32 }
    }
}

} // verus!
