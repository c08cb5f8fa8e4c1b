use cell_api_auth::config::{
    default_host, default_jwt_expiration, default_jwt_refresh_expiration, default_port,
    RabbitmqConfig, StorageConfig,
};
use cell_api_auth::dto_analysis::AnalyzeImageRequest;
use cell_api_auth::dto_image::{CursorPaginationQuery, PaginationInfo, PaginationQuery};
use cell_api_auth::models::JobStatus;
use cell_api_auth::rate_limit::RateLimitPolicy;

#[test]
fn page_limit_and_offset() {
    let q = PaginationQuery { page: None, limit: None };
    assert_eq!((q.page(), q.limit(), q.offset()), (1, 20, 0));
    let q = PaginationQuery { page: Some(3), limit: Some(10) };
    assert_eq!((q.page(), q.limit(), q.offset()), (3, 10, 20));
    let q = PaginationQuery { page: Some(-4), limit: Some(500) };
    assert_eq!((q.page(), q.limit(), q.offset()), (1, 100, 0));
    let q = PaginationQuery { page: Some(i32::MAX), limit: Some(100) };
    assert_eq!(q.offset(), (i32::MAX as i64 - 1) * 100);
    let c = CursorPaginationQuery { cursor: None, limit: Some(0) };
    assert_eq!(c.limit(), 1);
}

#[test]
fn cursor_parsing() {
    let c = CursorPaginationQuery { cursor: Some("2025-10-09T10:53:20+02:00".to_string()), limit: None };
    let t = c.cursor_datetime().unwrap();
    assert_eq!((t.secs, t.nanos), (1_760_000_000, 0));
    let c = CursorPaginationQuery { cursor: Some("yesterday".to_string()), limit: None };
    assert!(c.cursor_datetime().is_none());
}

#[test]
fn total_pages_is_the_ceiling() {
    assert_eq!(PaginationInfo::new(1, 20, 0).total_pages, 0);
    assert_eq!(PaginationInfo::new(1, 20, 20).total_pages, 1);
    assert_eq!(PaginationInfo::new(1, 20, 21).total_pages, 2);
    assert_eq!(PaginationInfo::new(1, 3, 10).total_pages, 4);
    assert_eq!(PaginationInfo::new(1, 0, 5).total_pages, i32::MAX);
    assert_eq!(PaginationInfo::new(1, 1, i64::MAX).total_pages, i32::MAX);
    let p = PaginationInfo::new(2, 10, 95);
    assert_eq!((p.page, p.limit, p.total, p.total_pages), (2, 10, 95, 10));
}

#[test]
fn configuration_defaults() {
    assert_eq!(default_host(), "0.0.0.0");
    assert_eq!(default_port(), 8080);
    assert_eq!(default_jwt_expiration(), 24);
    assert_eq!(default_jwt_refresh_expiration(), 7);
    let s = StorageConfig::default();
    assert_eq!((s.bucket.as_str(), s.presign_expiry_secs), ("mybucket", 3600));
    let r = RabbitmqConfig::default();
    assert_eq!((r.port, r.analysis_queue.as_str()), (5672, "analysis_jobs"));
    assert_eq!(AnalyzeImageRequest::default().model_version, "v1.0.0");
    assert_eq!(JobStatus::Processing.as_str(), "processing");
}

#[test]
fn credential_endpoints_are_throttled() {
    let login = RateLimitPolicy::login();
    assert_eq!((login.replenish_period_secs, login.burst_size, login.per_minute()), (12, 2, 5));
    let register = RateLimitPolicy::register();
    assert_eq!((register.replenish_period_secs, register.burst_size, register.per_minute()), (20, 1, 3));
}
