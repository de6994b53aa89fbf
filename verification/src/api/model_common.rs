//! Envelopes shared by the commands of the user interface.
use vstd::prelude::*;

verus! {

/// The answer to a command: its data on success, its error message otherwise.
#[derive(Debug, Clone)]
pub struct ApiResponse<T> {
    pub success: bool,
    pub data: Option<T>,
    pub error: Option<String>,
}

/// Which page of a listing is asked for.
#[derive(Debug, Clone, Copy, PartialEq, Eq, Structural)]
pub struct PaginationParams {
    pub page: i64,
    pub page_size: i64,
}

/// One page of a listing, with the totals of the whole listing.
#[derive(Debug, Clone)]
pub struct PaginatedResponse<T> {
    pub data: Vec<T>,
    pub total: i64,
    pub page: i64,
    pub page_size: i64,
    pub total_pages: i64,
}

} // verus!
