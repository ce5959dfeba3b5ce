//! The activity module's plain query and parameter types, and how a query
//! becomes listing parameters.
use vstd::prelude::*;
use crate::course::{page_count, pages_for};

verus! {

/// Query of the public activity listing.
#[derive(Debug)]
pub struct ListActivitiesQuery {
    pub page: Option<i32>,
    pub page_size: Option<i32>,
    pub activity_type: Option<i32>,
    pub keyword: Option<String>,
}

/// Query of a user's own activities.
#[derive(Debug)]
pub struct ListMyActivitiesQuery {
    pub page: Option<i32>,
    pub page_size: Option<i32>,
    pub include_enrollments: Option<bool>,
    pub include_collections: Option<bool>,
}

/// Where a page stands in a listing.
#[derive(Debug)]
pub struct Pagination {
    pub total: i64,
    pub page: i32,
    pub page_size: i32,
    pub pages: i32,
}

impl Pagination {
    /// Page `page` of a listing of `total` activities, `page_size` to a page.
    pub fn new(total: i64, page: i32, page_size: i32) -> (r: Pagination)
        requires
            total >= 0,
            page_size >= 1,
            pages_for(total as int, page_size as int) <= i32::MAX,
        ensures
            r.total == total,
            r.page == page,
            r.page_size == page_size,
            r.pages == pages_for(total as int, page_size as int),
    {
        let pages = page_count(total, page_size as i64);
        Pagination { total, page, page_size, pages: pages as i32 }
    }
}

/// Parameters of the public activity listing.
#[derive(Debug)]
pub struct GetActivitiesParams {
    pub keyword: Option<String>,
    pub activity_type: Option<i32>,
    pub page: i32,
    pub page_size: i32,
    pub user_id: Option<String>,
}

/// A student's enrollment in an activity.
#[derive(Debug)]
pub struct EnrollActivityInput {
    pub user_name: String,
    pub student_id: String,
    pub major: String,
    pub phone_number: Option<String>,
}

/// Parameters of a user's own activity listing.
#[derive(Debug)]
pub struct GetMyActivitiesParams {
    pub include_enrollments: bool,
    pub include_collections: bool,
    pub page: i32,
    pub page_size: i32,
}

/// The value if present, else the default.
pub open spec fn or_default<T>(o: Option<T>, d: T) -> T {
    match o {
        Some(v) => v,
        None => d,
    }
}

impl GetActivitiesParams {
    /// The listing parameters of a query made by `user_id`: page 1 and 10
    /// items unless the query says otherwise.
    pub fn from_query(query: ListActivitiesQuery, user_id: String) -> (r: GetActivitiesParams)
        ensures
            r.page == or_default(query.page, 1),
            r.page_size == or_default(query.page_size, 10),
            r.activity_type == query.activity_type,
            r.keyword == query.keyword,
            r.user_id == Some(user_id),
    {
        GetActivitiesParams {
            page: match query.page {
                Some(p) => p,
                None => 1,
            },
            page_size: match query.page_size {
                Some(s) => s,
                None => 10,
            },
            activity_type: query.activity_type,
            keyword: query.keyword,
            user_id: Some(user_id),
        }
    }
}

impl GetMyActivitiesParams {
    /// The parameters of a user's own listing: page 1, 10 items, enrollments
    /// and collections both included unless the query says otherwise.
    pub fn from_query(query: &ListMyActivitiesQuery) -> (r: GetMyActivitiesParams)
        ensures
            r.page == or_default(query.page, 1),
            r.page_size == or_default(query.page_size, 10),
            r.include_enrollments == or_default(query.include_enrollments, true),
            r.include_collections == or_default(query.include_collections, true),
    {
        GetMyActivitiesParams {
            page: match query.page {
                Some(p) => p,
                None => 1,
            },
            page_size: match query.page_size {
                Some(s) => s,
                None => 10,
            },
            include_enrollments: match query.include_enrollments {
                Some(b) => b,
                None => true,
            },
            include_collections: match query.include_collections {
                Some(b) => b,
                None => true,
            },
        }
    }
}

} // verus!
