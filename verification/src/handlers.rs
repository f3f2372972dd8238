//! The response envelope and query parameters of the HTTP API.

use vstd::prelude::*;

verus! {

/// Default page size of the sensor data listing.
pub const SENSOR_DATA_DEFAULT_LIMIT: u32 = 100;

/// Default page size of the localization and alert listings.
pub const RECENT_DEFAULT_LIMIT: u32 = 50;

/// Paging parameters of the listing endpoints.
#[derive(Debug, Clone, Copy, PartialEq, Eq)]
pub struct PaginationQuery {
    pub limit: Option<u32>,
    pub device_id: Option<u32>,
}

impl PaginationQuery {
    /// The requested page size, or `default` when none was requested.
    pub fn limit_or(&self, default: u32) -> (n: u32)
        ensures
            n == match self.limit {
                Some(l) => l,
                None => default,
            },
    {
        match self.limit {
            Some(l) => l,
            None => default,
        }
    }
}

/// The envelope of every API answer: a success flag with either the data or
/// an error message.
#[derive(Debug, Clone)]
pub struct ApiResponse<T> {
    pub success: bool,
    pub data: Option<T>,
    pub error: Option<String>,
}

impl<T> ApiResponse<T> {
    /// A successful answer carrying `data`.
    pub fn ok(data: T) -> (r: Self)
        ensures
            r.success,
            r.data == Some(data),
            r.error is None,
    {
        ApiResponse { success: true, data: Some(data), error: None }
    }

    /// A failed answer carrying the message `msg` and no data.
    pub fn err(msg: &str) -> (r: Self)
        ensures
            !r.success,
            r.data is None,
            r.error is Some,
            r.error->0@ == msg@,
    {
        ApiResponse { success: false, data: None, error: Some(String::from_str(msg)) }
    }
}

} // verus!
