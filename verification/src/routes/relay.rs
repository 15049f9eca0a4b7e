//! Search over the index of listings published on Nostr relays.

use vstd::prelude::*;
use vstd::string::*;

use crate::db::NostrCacheEntry;
use crate::routes::listings::Page;
use crate::routes::listings::page;

verus! {

pub struct RelaySearchQuery {
    pub category: Option<String>,
    pub area: Option<String>,
    pub author: Option<String>,
    pub limit: Option<i64>,
    pub offset: Option<i64>,
}

pub struct RelaySearchResponse {
    pub items: Vec<NostrCacheEntry>,
    pub total: i64,
    pub limit: i64,
    pub offset: i64,
}

/// The part of the index that is asked for: 50 rows unless asked otherwise, and
/// never more than 200.
pub fn search_listings(q: &RelaySearchQuery) -> (r: Page)
    ensures
        r.limit == (match q.limit {
            Some(n) => if n < 200 {
                n
            } else {
                200
            },
            None => 50,
        }),
        r.offset == (match q.offset {
            Some(n) => n,
            None => 0,
        }),
{
    page(q.limit, q.offset)
}

} // verus!
