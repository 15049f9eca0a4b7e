//! Ratings of drivers.

use vstd::prelude::*;
use vstd::string::*;

use crate::auth::AuthUser;
use crate::error::AppError;
use crate::error::AppResult;
use crate::error::ErrorView;
use crate::error::refused_as;
use crate::text::or_default;
use crate::text::or_text;

verus! {

pub struct SubmitRatingInput {
    pub ride_id: String,
    pub driver_pubkey: String,
    pub score: i64,
    pub comment: Option<String>,
    pub category: Option<String>,
}

pub struct RatingDetail {
    pub id: String,
    pub score: i64,
    pub comment: String,
    pub rider_pubkey: String,
    pub created_at: i64,
}

pub struct LeaderboardQuery {
    pub category: Option<String>,
    pub limit: Option<i64>,
}

pub struct ListingStats {
    pub id: String,
    pub listing_name: Option<String>,
    pub vehicle: Option<String>,
    pub vehicle_type: Option<String>,
    pub photo_urls: Option<String>,
    pub price_per_km: Option<i64>,
    pub service_interval_km: i64,
    pub km_driven_total: i64,
}

/// A rating as it is entered.
pub struct RatingRow {
    pub id: String,
    pub ride_id: String,
    pub driver_pubkey: String,
    pub rider_pubkey: String,
    pub score: i64,
    pub comment: String,
    pub category: String,
    pub created_at: i64,
}

/// Why a rating is not entered, if it is not: a ride is rated once, from 1 to 5.
pub open spec fn rating_refusal(score: i64, already: bool) -> Option<ErrorView> {
    if !(1 <= score <= 5) {
        Some(ErrorView::BadRequest("Score must be 1-5"@))
    } else if already {
        Some(ErrorView::BadRequest("Already rated"@))
    } else {
        None
    }
}

/// The row of a rating.
pub fn submit_rating(
    auth: &AuthUser,
    body: &SubmitRatingInput,
    already: bool,
    id: String,
    now: i64,
) -> (r: AppResult<RatingRow>)
    ensures
        refused_as(r, rating_refusal(body.score, already)),
        r matches Ok(row) ==> {
            &&& row.id == id
            &&& row.ride_id == body.ride_id
            &&& row.driver_pubkey == body.driver_pubkey
            &&& row.rider_pubkey == auth.public_key
            &&& row.score == body.score
            &&& 1 <= row.score <= 5
            &&& row.comment@ == or_text(body.comment.deep_view(), ""@)
            &&& row.category@ == or_text(body.category.deep_view(), "city"@)
            &&& row.created_at == now
        },
{
    if body.score < 1 || body.score > 5 {
        return Err(AppError::bad_request("Score must be 1-5"));
    }
    if already {
        return Err(AppError::bad_request("Already rated"));
    }
    Ok(
        RatingRow {
            id,
            ride_id: body.ride_id.clone(),
            driver_pubkey: body.driver_pubkey.clone(),
            rider_pubkey: auth.public_key.clone(),
            score: body.score,
            comment: or_default(&body.comment, ""),
            category: or_default(&body.category, "city"),
            created_at: now,
        },
    )
}

/// A driver's ratings so far: how many, and the sum of their scores. The average is
/// the sum over the number.
pub struct Tally {
    pub total_ratings: i64,
    pub sum_scores: i64,
}

impl Tally {
    /// Every rating counted lies between 1 and 5, so the average does.
    pub open spec fn wf(self) -> bool {
        self.total_ratings >= 0 && self.total_ratings <= self.sum_scores <= 5 * self.total_ratings
    }

    /// The tally with one more rating, where the numbers have room for it.
    pub fn with(known: Option<Tally>, score: i64) -> (r: Option<Tally>)
        requires
            1 <= score <= 5,
            known matches Some(t) ==> t.wf(),
        ensures
            match known {
                None => r matches Some(t) && t.wf() && t.total_ratings == 1 && t.sum_scores
                    == score,
                Some(k) => match r {
                    Some(t) => t.wf() && t.total_ratings == k.total_ratings + 1 && t.sum_scores
                        == k.sum_scores + score,
                    None => k.sum_scores + score > i64::MAX,
                },
            },
    {
        match known {
            None => Some(Tally { total_ratings: 1, sum_scores: score }),
            Some(k) => match k.sum_scores.checked_add(score) {
                Some(sum) => Some(Tally { total_ratings: k.total_ratings + 1, sum_scores: sum }),
                None => None,
            },
        }
    }
}

/// What a leaderboard is asked for.
pub struct LeaderboardSearch {
    pub category: String,
    pub limit: i64,
}

/// What a leaderboard is asked for: all categories and 20 drivers unless asked
/// otherwise.
pub fn leaderboard(q: &LeaderboardQuery) -> (r: LeaderboardSearch)
    ensures
        r.category@ == or_text(q.category.deep_view(), ""@),
        r.limit == (match q.limit {
            Some(n) => n,
            None => 20,
        }),
{
    LeaderboardSearch {
        category: or_default(&q.category, ""),
        limit: match q.limit {
            Some(n) => n,
            None => 20,
        },
    }
}

/// A driver's totals, beside the average rating.
pub struct DriverTotals {
    pub total_rides: i64,
    pub total_ratings: i64,
    pub total_earned_sats: i64,
    pub total_earned_mwk: i64,
}

/// A driver's totals: nothing yet where none are kept.
pub fn driver_dashboard(kept: Option<DriverTotals>) -> (r: DriverTotals)
    ensures
        match kept {
            Some(t) => r == t,
            None => r.total_rides == 0 && r.total_ratings == 0 && r.total_earned_sats == 0
                && r.total_earned_mwk == 0,
        },
{
    match kept {
        Some(t) => t,
        None => DriverTotals {
            total_rides: 0,
            total_ratings: 0,
            total_earned_sats: 0,
            total_earned_mwk: 0,
        },
    }
}

/// What a ride adds to a driver's totals: one ride, and the sats that it paid.
pub fn add_earning(kept: DriverTotals, sats: i64) -> (r: Option<DriverTotals>)
    ensures
        match r {
            Some(t) => t == (DriverTotals {
                total_rides: (kept.total_rides + 1) as i64,
                total_earned_sats: (kept.total_earned_sats + sats) as i64,
                ..kept
            }) && t.total_rides == kept.total_rides + 1 && t.total_earned_sats
                == kept.total_earned_sats + sats,
            None => kept.total_rides == i64::MAX || !(i64::MIN <= kept.total_earned_sats + sats
                <= i64::MAX),
        },
{
    match (kept.total_rides.checked_add(1), kept.total_earned_sats.checked_add(sats)) {
        (Some(rides), Some(earned)) => Some(
            DriverTotals {
                total_rides: rides,
                total_ratings: kept.total_ratings,
                total_earned_sats: earned,
                total_earned_mwk: kept.total_earned_mwk,
            },
        ),
        _ => None,
    }
}

} // verus!
