//! Request types of the HTTP surface whose handling carries rules worth
//! stating: list pagination and the human acknowledgement of alerts.

use vstd::prelude::*;
use crate::escalation::Alert;

verus! {

/// The default page of a paginated alert listing.
pub fn default_page() -> (r: u64)
    ensures
        r == 1,
{
    1
}

/// The default page size of a paginated alert listing.
pub fn default_page_size() -> (r: u64)
    ensures
        r == 10,
{
    10
}

/// Pagination of the alert listings, with an optional severity filter.
#[derive(Clone, Debug)]
pub struct PaginationParams {
    pub page: u64,
    pub page_size: u64,
    pub severity_level: Option<String>,
}

impl Default for PaginationParams {
    /// The first page of ten, unfiltered.
    fn default() -> (r: Self)
        ensures
            r.page == 1,
            r.page_size == 10,
            r.severity_level is None,
    {
        PaginationParams { page: default_page(), page_size: default_page_size(), severity_level: None }
    }
}

impl PaginationParams {
    /// The zero-based page index a store fetches, guarding the first page
    /// against underflow.
    pub fn page_index(&self) -> (r: u64)
        ensures
            r == if self.page >= 1 {
                (self.page - 1) as int
            } else {
                0
            },
    {
        if self.page >= 1 {
            self.page - 1
        } else {
            0
        }
    }
}

/// The default page of a digest listing.
pub fn default_digest_page() -> (r: u64)
    ensures
        r == 1,
{
    1
}

/// The default page size of a digest listing.
pub fn default_digest_page_size() -> (r: u64)
    ensures
        r == 10,
{
    10
}

/// Pagination of the digest listings.
#[derive(Clone, Debug)]
pub struct DigestPaginationParams {
    pub page: u64,
    pub page_size: u64,
}

impl Default for DigestPaginationParams {
    /// The first page of ten.
    fn default() -> (r: Self)
        ensures
            r.page == 1,
            r.page_size == 10,
    {
        DigestPaginationParams { page: default_digest_page(), page_size: default_digest_page_size() }
    }
}

impl DigestPaginationParams {
    /// The zero-based page index a store fetches, guarding the first page
    /// against underflow.
    pub fn page_index(&self) -> (r: u64)
        ensures
            r == if self.page >= 1 {
                (self.page - 1) as int
            } else {
                0
            },
    {
        if self.page >= 1 {
            self.page - 1
        } else {
            0
        }
    }
}

/// A user's acknowledgement of an alert, with their free-text response.
#[derive(Clone, Debug)]
pub struct AcknowledgeRequest {
    pub response: String,
}

/// Applies a user's acknowledgement to an alert: the acknowledgement time,
/// the response text, and a fixed outcome narrative. Identity and creation
/// time stay untouched.
pub fn acknowledge_alert(alert: &mut Alert, request: AcknowledgeRequest, now: i64)
    ensures
        *final(alert) == (Alert {
            user_acknowledged_at: Some(now),
            user_response: Some(request.response),
            outcome: final(alert).outcome,
            ..*old(alert)
        }),
        final(alert).outcome is Some && final(alert).outcome->0@ == "Acknowledged by User"@,
{
    alert.user_acknowledged_at = Some(now);
    alert.user_response = Some(request.response);
    alert.outcome = Some("Acknowledged by User".to_owned());
}

/// Resolves an alert by hand: the outcome becomes the standardized
/// "Resolved" narrative; everything else stays.
pub fn resolve_alert(alert: &mut Alert)
    ensures
        *final(alert) == (Alert { outcome: final(alert).outcome, ..*old(alert) }),
        final(alert).outcome is Some && final(alert).outcome->0@ == "Resolved"@,
{
    alert.outcome = Some("Resolved".to_owned());
}

/// The seconds from an alert's creation to its acknowledgement, as recorded
/// for the acknowledgement-time metric.
pub fn acknowledgment_duration_secs(alert: &Alert, now: i64) -> (r: i64)
    requires
        i64::MIN <= now - alert.created_at <= i64::MAX,
    ensures
        r == now - alert.created_at,
{
    now - alert.created_at
}

} // verus!
