//! Request and response bodies of the image endpoints, and paging.
use crate::time::{parse_rfc3339, rfc3339_instant, Timestamp};
use vstd::prelude::*;

verus! {

#[derive(Clone, Debug)]
pub struct RenameImageRequest {
    pub new_filename: String,
}

/// Asks for a presigned URL to upload straight to object storage.
#[derive(Clone, Debug)]
pub struct RequestUploadRequest {
    pub filename: String,
    pub content_type: String,
    pub file_size: i64,
}

#[derive(Clone, Debug)]
pub struct RequestUploadResponse {
    pub upload_token: String,
    pub presigned_url: String,
    pub expires_at: String,
}

#[derive(Clone, Debug)]
pub struct ConfirmUploadRequest {
    pub upload_token: String,
    pub filename: String,
    pub content_type: String,
    pub file_size: i64,
}

#[derive(Clone, Debug)]
pub struct PresignedDownloadResponse {
    pub url: String,
    pub expires_at: String,
}

/// Page-numbered listing: page from 1, up to 100 items per page.
#[derive(Clone, Debug)]
pub struct PaginationQuery {
    pub page: Option<i32>,
    pub limit: Option<i32>,
}

pub open spec fn page_of(q: PaginationQuery) -> int {
    match q.page {
        Some(p) => if p < 1 {
            1
        } else {
            p as int
        },
        None => 1,
    }
}

pub open spec fn limit_of(l: Option<i32>) -> int {
    match l {
        Some(x) => if x < 1 {
            1
        } else if x > 100 {
            100
        } else {
            x as int
        },
        None => 20,
    }
}

fn clamp_limit(limit: Option<i32>) -> (r: i32)
    ensures
        r == limit_of(limit),
{
    match limit {
        Some(x) => if x < 1 {
            1
        } else if x > 100 {
            100
        } else {
            x
        },
        None => 20,
    }
}

impl PaginationQuery {
    /// The requested page, 1 when absent or below 1.
    pub fn page(&self) -> (r: i32)
        ensures
            r == page_of(*self),
    {
        match self.page {
            Some(p) => if p < 1 {
                1
            } else {
                p
            },
            None => 1,
        }
    }

    /// Items per page: 20 when absent, else clamped to 1..=100.
    pub fn limit(&self) -> (r: i32)
        ensures
            r == limit_of(self.limit),
    {
        clamp_limit(self.limit)
    }

    /// Items before the page: (page - 1) * limit, computed without overflow.
    pub fn offset(&self) -> (r: i64)
        ensures
            r == (page_of(*self) - 1) * limit_of(self.limit),
    {
        let page = self.page() as i64;
        let limit = self.limit() as i64;
        assert(0 <= page - 1 <= i32::MAX);
        assert(0 <= (page - 1) * limit <= i32::MAX * 100) by (nonlinear_arith)
            requires
                0 <= page - 1 <= i32::MAX,
                1 <= limit <= 100,
        ;
        (page - 1) * limit
    }
}

/// Cursor listing: items older than the cursor instant, up to 100 per page.
#[derive(Clone, Debug)]
pub struct CursorPaginationQuery {
    pub cursor: Option<String>,
    pub limit: Option<i32>,
}

impl CursorPaginationQuery {
    pub fn limit(&self) -> (r: i32)
        ensures
            r == limit_of(self.limit),
    {
        clamp_limit(self.limit)
    }

    /// The cursor as an instant; `None` where absent or not RFC 3339.
    pub fn cursor_datetime(&self) -> (r: Option<Timestamp>)
        ensures
            self.cursor is None ==> r is None,
            self.cursor matches Some(c) ==> (r is None <==> rfc3339_instant(c@) is None),
            r matches Some(t) ==> (self.cursor matches Some(c) && rfc3339_instant(c@) == Some(
                (t.secs, t.nanos),
            )),
    {
        match &self.cursor {
            Some(c) => parse_rfc3339(c.as_str()),
            None => None,
        }
    }
}

/// ceil(total / limit); for a zero limit, as a float division would give it:
/// unbounded above for a positive total, below for a negative one, 0 for 0.
pub open spec fn ceil_ratio(total: int, limit: int) -> int {
    let a = if total < 0 {
        -total
    } else {
        total
    };
    let b = if limit < 0 {
        -limit
    } else {
        limit
    };
    if (total >= 0) == (limit > 0) || total == 0 {
        a / b + if a % b != 0 {
            1int
        } else {
            0int
        }
    } else {
        -(a / b)
    }
}

pub open spec fn total_pages_of(total: int, limit: int) -> int {
    let q = if limit == 0 {
        if total > 0 {
            i32::MAX as int
        } else if total < 0 {
            i32::MIN as int
        } else {
            0
        }
    } else {
        ceil_ratio(total, limit)
    };
    if q > i32::MAX {
        i32::MAX as int
    } else if q < i32::MIN {
        i32::MIN as int
    } else {
        q
    }
}

#[derive(Clone, Debug)]
pub struct PaginationInfo {
    pub page: i32,
    pub limit: i32,
    pub total: i64,
    pub total_pages: i32,
}

impl PaginationInfo {
    /// Paging facts of a listing: `total_pages` is the ceiling of total / limit,
    /// held within `i32`.
    pub fn new(page: i32, limit: i32, total: i64) -> (r: PaginationInfo)
        ensures
            r.page == page,
            r.limit == limit,
            r.total == total,
            r.total_pages == total_pages_of(total as int, limit as int),
    {
        let total_pages: i32 = if limit == 0 {
            if total > 0 {
                i32::MAX
            } else if total < 0 {
                i32::MIN
            } else {
                0
            }
        } else {
            let a: u128 = if total < 0 {
                (-(total as i128)) as u128
            } else {
                total as u128
            };
            let b: u128 = if limit < 0 {
                (-(limit as i128)) as u128
            } else {
                limit as u128
            };
            let q: u128 = a / b;
            let positive = (total >= 0) == (limit > 0) || total == 0;
            assert(q <= a);
            if positive {
                let c: u128 = if a % b != 0 {
                    q + 1
                } else {
                    q
                };
                if c > i32::MAX as u128 {
                    i32::MAX
                } else {
                    c as i32
                }
            } else {
                if q > 2147483648 {
                    i32::MIN
                } else {
                    (-(q as i64)) as i32
                }
            }
        };
        PaginationInfo { page, limit, total, total_pages }
    }
}

#[derive(Clone, Debug)]
pub struct ImageMetadataResponse {
    pub width: Option<u32>,
    pub height: Option<u32>,
}

#[derive(Clone, Debug)]
pub struct ImageResponse {
    pub image_id: i64,
    pub folder_id: i32,
    pub original_filename: String,
    pub file_size: i32,
    pub mime_type: String,
    pub metadata: Option<ImageMetadataResponse>,
    pub has_analysis: bool,
    pub uploaded_at: String,
}

#[derive(Clone, Debug)]
pub struct ImageListResponse {
    pub images: Vec<ImageResponse>,
    pub pagination: PaginationInfo,
}

#[derive(Clone, Debug)]
pub struct CursorPaginationInfo {
    pub has_next: bool,
    pub next_cursor: Option<String>,
    pub count: i32,
}

#[derive(Clone, Debug)]
pub struct ImageListResponseV2 {
    pub images: Vec<ImageResponse>,
    pub pagination: CursorPaginationInfo,
}

#[derive(Clone, Debug)]
pub struct AnalysisHistoryItem {
    pub job_id: i64,
    pub status: String,
    pub ai_model_version: Option<String>,
    pub finished_at: Option<String>,
}

#[derive(Clone, Debug)]
pub struct ImageDetailResponse {
    pub image_id: i64,
    pub folder_id: i32,
    pub original_filename: String,
    pub file_url: String,
    pub file_size: i32,
    pub mime_type: String,
    pub metadata: Option<ImageMetadataResponse>,
    pub analysis_history: Vec<AnalysisHistoryItem>,
    pub uploaded_at: String,
}

#[derive(Clone, Debug)]
pub struct DeleteImageResponse {
    pub message: String,
}

} // verus!
