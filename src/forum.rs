//! The forum's plain request and view types, and the page window of its
//! listings.
use vstd::prelude::*;
use crate::course::{page_count, pages_for};

verus! {

/// Moderation state of a post.
#[derive(Debug, Clone, Copy, PartialEq, Eq, Structural)]
pub enum PostStatus {
    Approved,
    Pending,
    Rejected,
    Hidden,
}

impl Default for PostStatus {
    /// A new post waits for moderation.
    fn default() -> (r: PostStatus)
        ensures
            r == PostStatus::Pending,
    {
        PostStatus::Pending
    }
}

/// A new post.
#[derive(Debug)]
pub struct CreatePostRequest {
    pub board_id: String,
    pub title: String,
    pub content: String,
    pub tags: Vec<String>,
    pub media: Vec<MediaItem>,
}

/// A partial change to a post.
#[derive(Debug)]
pub struct UpdatePostRequest {
    pub title: Option<String>,
    pub content: Option<String>,
    pub tags: Option<Vec<String>>,
    pub media: Option<Vec<MediaItem>>,
}

/// Filters and page of a post listing.
#[derive(Debug)]
pub struct PostQuery {
    pub page: Option<i64>,
    pub page_size: Option<i64>,
    pub board_id: Option<String>,
    pub filter: Option<String>,
    pub sort: Option<String>,
    pub keyword: Option<String>,
}

/// Like or unlike.
#[derive(Debug)]
pub struct LikeActionRequest {
    pub actions: String,
}

/// Collect or uncollect.
#[derive(Debug)]
pub struct CollectActionRequest {
    pub action: String,
}

/// A new comment, possibly a reply to another.
#[derive(Debug)]
pub struct CreateCommentRequest {
    pub content: String,
    pub reply_to_comment_id: Option<String>,
}

/// Page of a comment listing.
#[derive(Debug)]
pub struct CommentQuery {
    pub page: Option<i64>,
    pub page_size: Option<i64>,
}

/// A report on a post or a comment.
#[derive(Debug)]
pub struct CreateReportRequest {
    pub target_type: String,
    pub target_id: String,
    pub reason: String,
    pub description: Option<String>,
}

/// Filters and page of the moderators' report listing.
#[derive(Debug)]
pub struct AdminReportQuery {
    pub page: Option<i64>,
    pub page_size: Option<i64>,
    pub status: Option<String>,
    pub target_type: Option<String>,
}

/// A moderator's decision on a post.
#[derive(Debug)]
pub struct AdminPostStatusRequest {
    pub status: String,
    pub notes: Option<String>,
}

/// Size and name details of an attached medium.
#[derive(Debug)]
pub struct MediaMeta {
    pub size: Option<String>,
    pub width: Option<String>,
    pub height: Option<String>,
    pub filename: Option<String>,
}

/// A medium attached to a post.
#[derive(Debug)]
pub struct MediaItem {
    pub media_type: String,
    pub url: String,
    pub thumbnail_url: Option<String>,
    pub meta: MediaMeta,
}

/// The public face of a user.
#[derive(Debug)]
pub struct UserLite {
    pub id: String,
    pub student_id: String,
    pub name: String,
    pub avatar_url: String,
    pub college: String,
}

/// Counters of a post.
#[derive(Debug)]
pub struct PostStats {
    pub view_count: i32,
    pub like_count: i32,
    pub comment_count: i32,
}

/// What the reader has done with a post.
#[derive(Debug)]
pub struct UserInteraction {
    pub is_liked: bool,
    pub is_collected: bool,
}

/// A board of the forum.
#[derive(Debug)]
pub struct BoardVO {
    pub id: String,
    pub name: String,
    pub icon: String,
    pub description: String,
    pub board_type: String,
}

/// Counters of a comment.
#[derive(Debug)]
pub struct CommentStats {
    pub like_count: i32,
}

/// What the reader has done with a comment.
#[derive(Debug)]
pub struct CommentInteraction {
    pub is_liked: bool,
}

/// Where a page stands in a listing.
#[derive(Debug)]
pub struct PageInfo {
    pub total: i64,
    pub page: i64,
    pub page_size: i64,
    pub pages: i64,
}

/// A page of a listing.
#[derive(Debug)]
pub struct Pagination<T> {
    pub list: Vec<T>,
    pub pagination: PageInfo,
}

/// The page asked for, 1 when absent and at least 1.
pub open spec fn page_or_first(page: Option<i64>) -> int {
    match page {
        Some(p) => if p < 1 {
            1
        } else {
            p as int
        },
        None => 1,
    }
}

/// The page size asked for, 10 when absent, held within 1..=100.
pub open spec fn page_size_within_limits(page_size: Option<i64>) -> int {
    match page_size {
        Some(s) => if s < 1 {
            1
        } else if s > 100 {
            100
        } else {
            s as int
        },
        None => 10,
    }
}

/// The page and page size of a listing request: page 1 and 10 items by
/// default, the page at least 1, the size within 1..=100.
pub fn page_window(page: Option<i64>, page_size: Option<i64>) -> (r: (i64, i64))
    ensures
        r.0 == page_or_first(page),
        r.1 == page_size_within_limits(page_size),
{
    let p = match page {
        Some(p) => if p < 1 {
            1
        } else {
            p
        },
        None => 1,
    };
    let s = match page_size {
        Some(s) => if s < 1 {
            1
        } else if s > 100 {
            100
        } else {
            s
        },
        None => 10,
    };
    (p, s)
}

impl PageInfo {
    /// Page `page` of a listing of `total` items, `page_size` to a page.
    pub fn new(total: i64, page: i64, page_size: i64) -> (r: PageInfo)
        requires
            total >= 0,
            page_size >= 1,
        ensures
            r.total == total,
            r.page == page,
            r.page_size == page_size,
            r.pages == pages_for(total as int, page_size as int),
    {
        PageInfo { total, page, page_size, pages: page_count(total, page_size) }
    }
}

} // verus!
