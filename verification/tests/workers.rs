use lemonade::bench::benchmark_url;
use lemonade::workers::{actix, axum};

#[test]
fn test_health_check() {
    let body = actix::health_check_response();
    assert_eq!(body.status(), "ok");
    assert_eq!(body.service(), "actix-web");
}

#[test]
fn test_handle_work() {
    let body = actix::work_response();
    assert!(body.processed());
    assert_eq!(body.service(), "actix-web");
}

#[test]
fn handlers_test_health_check() {
    let health = axum::health_check_response();
    assert_eq!(health.status(), "ok");
    assert_eq!(health.service(), "axum");
}

#[test]
fn test_work_endpoint_with_message() {
    let work = axum::work_response();
    assert!(work.processed());
    assert_eq!(work.service(), "axum");
}

#[test]
fn worker_responses_carry_given_fields() {
    let h = actix::HealthResponse::new("degraded".to_string(), "x".to_string());
    assert_eq!(h.status(), "degraded");
    assert_eq!(h.service(), "x");
    let w = axum::WorkResponse::new(false, "y".to_string());
    assert!(!w.processed());
    assert_eq!(w.service(), "y");
}

#[test]
fn benchmark_urls() {
    assert_eq!(benchmark_url("127.0.0.1:4000", "health"), "http://127.0.0.1:4000/health");
}
