//! One page of the service's mod listing.
use crate::fmod::FModShort;
use vstd::prelude::*;

verus! {

/// The addresses for walking a paginated listing.
#[derive(Debug, PartialEq, Eq)]
pub struct PaginationLinks {
    /// The address of the first page.
    pub first: Option<String>,
    /// The address of the last page.
    pub last: Option<String>,
    /// The address of the next page.
    pub next: Option<String>,
    /// The address of the previous page.
    pub prev: Option<String>,
}

/// Where one page stands in the listing.
#[derive(Debug, PartialEq, Eq)]
pub struct Pagination {
    /// The total number of items in the listing.
    pub count: usize,
    /// The addresses for walking the listing.
    pub links: PaginationLinks,
    /// The current page number.
    pub page: usize,
    /// The total number of pages.
    pub page_count: usize,
    /// The number of items per page.
    pub page_size: usize,
}

/// One page of short mod snapshots.
#[derive(Debug, PartialEq, Eq)]
pub struct FModList {
    /// Where the page stands in the listing.
    pub pagination: Pagination,
    /// The snapshots on the page.
    pub results: Vec<FModShort>,
}

} // verus!
