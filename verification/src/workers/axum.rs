//! Responses of the worker served with axum.
use vstd::prelude::*;

verus! {

/// The service name this worker reports.
pub const SERVICE_NAME: &'static str = "axum";

/// Health check response structure
pub struct HealthResponse {
    status: String,
    service: String,
}

impl HealthResponse {
    /// The reported status.
    pub closed spec fn status_text(&self) -> Seq<char> {
        self.status@
    }

    /// The reported service name.
    pub closed spec fn service_text(&self) -> Seq<char> {
        self.service@
    }

    /// A response with the given fields.
    pub fn new(status: String, service: String) -> (r: Self)
        ensures
            r.status_text() == status@,
            r.service_text() == service@,
    {
        HealthResponse { status, service }
    }

    /// The reported status.
    pub fn status(&self) -> (r: &str)
        ensures
            r@ == self.status_text(),
    {
        self.status.as_str()
    }

    /// The reported service name.
    pub fn service(&self) -> (r: &str)
        ensures
            r@ == self.service_text(),
    {
        self.service.as_str()
    }
}

/// Work response structure
pub struct WorkResponse {
    processed: bool,
    service: String,
}

impl WorkResponse {
    /// Whether the work was processed.
    pub closed spec fn processed_flag(&self) -> bool {
        self.processed
    }

    /// The reported service name.
    pub closed spec fn service_text(&self) -> Seq<char> {
        self.service@
    }

    /// A response with the given fields.
    pub fn new(processed: bool, service: String) -> (r: Self)
        ensures
            r.processed_flag() == processed,
            r.service_text() == service@,
    {
        WorkResponse { processed, service }
    }

    /// Whether the work was processed.
    pub fn processed(&self) -> (r: bool)
        ensures
            r == self.processed_flag(),
    {
        self.processed
    }

    /// The reported service name.
    pub fn service(&self) -> (r: &str)
        ensures
            r@ == self.service_text(),
    {
        self.service.as_str()
    }
}

/// The body of the health check endpoint: status `ok` from this service.
pub fn health_check_response() -> (r: HealthResponse)
    ensures
        r.status_text() == "ok"@,
        r.service_text() == SERVICE_NAME@,
{
    HealthResponse { status: String::from_str("ok"), service: String::from_str(SERVICE_NAME) }
}

/// The body of the work endpoint once the simulated work is done.
pub fn work_response() -> (r: WorkResponse)
    ensures
        r.processed_flag(),
        r.service_text() == SERVICE_NAME@,
{
    WorkResponse { processed: true, service: String::from_str(SERVICE_NAME) }
}

} // verus!
