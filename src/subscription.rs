//! Subscription rules: one subscription per user and show, the status a
//! lookup reports, page information of a listing, and the cache TTL a
//! subscription change writes for the show.
use vstd::prelude::*;
use crate::config::Config;
use crate::error::{AppError, DomainError};
use crate::query::page_count;

verus! {

/// Message of the conflict raised by a second subscription to a show.
pub open spec fn already_subscribed_message() -> Seq<char> {
    "番剧已订阅"@
}

/// A user may subscribe to a show once: an existing subscription is a
/// conflict.
pub fn check_new_subscription(existing: bool) -> (r: Result<(), AppError>)
    ensures
        r is Ok <==> !existing,
        existing ==> (r matches Err(AppError::Domain(DomainError::Conflict(m))) && m@
            == already_subscribed_message()),
{
    if existing {
        Err(AppError::Domain(DomainError::Conflict(String::from_str("番剧已订阅"))))
    } else {
        Ok(())
    }
}

/// Whether a user subscribes to a show, since when, and with which notes.
#[derive(Debug, Clone)]
pub struct SubscriptionStatus {
    pub subscribed: bool,
    pub subscribed_at: Option<u64>,
    pub notes: Option<String>,
}

/// The status reported for a lookup that found `found`: its time and notes,
/// or not subscribed.
pub fn subscription_status(found: Option<(i64, Option<String>)>) -> (r: SubscriptionStatus)
    ensures
        r.subscribed == found is Some,
        found matches Some(f) ==> r.subscribed_at == Some(f.0 as u64) && r.notes == f.1,
        found is None ==> r.subscribed_at is None && r.notes is None,
{
    match found {
        Some((at, notes)) => SubscriptionStatus {
            subscribed: true,
            subscribed_at: Some(#[verifier::truncate] (at as u64)),
            notes,
        },
        None => SubscriptionStatus { subscribed: false, subscribed_at: None, notes: None },
    }
}

/// Parameters of a subscription listing; absent values take the
/// listing's defaults.
#[derive(Debug, Clone)]
pub struct GetSubscriptionsParams {
    pub sort: Option<String>,
    pub order: Option<String>,
    pub search: Option<String>,
    pub page: Option<u32>,
    pub limit: Option<u32>,
}

/// Every show a user subscribes to.
#[derive(Debug, Clone)]
pub struct SubscriptionIdsResponse {
    pub ids: Vec<i64>,
}

/// Page information of a subscription listing.
#[derive(Debug, Clone, Copy, PartialEq, Eq, Structural)]
pub struct PaginationInfo {
    pub page: u32,
    pub limit: u32,
    pub total: u32,
    pub pages: u32,
}

/// Page information of a subscription listing: values as given, and the
/// number of pages the total needs.
pub fn subscription_pagination(page: i64, limit: i64, total: i64) -> (r: PaginationInfo)
    ensures
        r.page == page as u32,
        r.limit == limit as u32,
        r.total == total as u32,
        r.pages == page_count(total as int, limit as int) as u32,
{
    let p = crate::query::pagination(page, limit, total);
    PaginationInfo {
        page: #[verifier::truncate] (page as u32),
        limit: #[verifier::truncate] (limit as u32),
        total: #[verifier::truncate] (total as u32),
        pages: #[verifier::truncate] (p.total_pages as u32),
    }
}

/// The TTL to write on a show's subject and episode cache rows.
#[derive(Debug, Clone, Copy, PartialEq, Eq, Structural)]
pub struct TtlUpdate {
    pub bangumi_id: i64,
    pub ttl: i64,
}

/// After a subscribe the show's rows take the subscribed TTL; after an
/// unsubscribe, the non-subscribed one.
pub fn ttl_update_for(config: &Config, bangumi_id: i64, subscribed: bool) -> (r: TtlUpdate)
    ensures
        r.bangumi_id == bangumi_id,
        subscribed ==> r.ttl == config.sub_ttl_spec(),
        !subscribed ==> r.ttl == config.nonsub_ttl_spec(),
{
    TtlUpdate { bangumi_id, ttl: crate::cache::policy_ttl(config, subscribed) }
}

} // verus!
