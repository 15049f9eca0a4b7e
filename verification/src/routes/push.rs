//! Subscriptions to push notifications.

use vstd::prelude::*;
use vstd::string::*;

use crate::auth::AuthUser;
use crate::db::PushSubscription;
use crate::text::copy_option;

verus! {

pub struct SubscribeRequest {
    pub endpoint: String,
    pub keys: SubscriptionKeys,
    pub platform: Option<String>,
    pub user_agent: Option<String>,
}

pub struct SubscriptionKeys {
    pub p256dh: String,
    pub auth: String,
}

pub struct UnsubscribeRequest {
    pub endpoint: String,
}

/// The key that browsers are told to expect pushes from.
pub fn vapid_public_key(config: &crate::config::Config) -> (r: String)
    ensures
        r == config.vapid_public_key,
{
    config.vapid_public_key.clone()
}

/// The row that a subscription becomes.
pub fn subscribe(auth: &AuthUser, body: &SubscribeRequest, id: String, now: i64) -> (r:
    PushSubscription)
    ensures
        r.id == id,
        r.npub == auth.npub,
        r.endpoint == body.endpoint,
        r.p256dh == body.keys.p256dh,
        r.auth == body.keys.auth,
        r.platform == body.platform,
        r.user_agent == body.user_agent,
        r.created_at == now,
        r.last_used == now,
{
    PushSubscription {
        id,
        npub: auth.npub.clone(),
        endpoint: body.endpoint.clone(),
        p256dh: body.keys.p256dh.clone(),
        auth: body.keys.auth.clone(),
        platform: copy_option(&body.platform),
        user_agent: copy_option(&body.user_agent),
        created_at: now,
        last_used: now,
    }
}

/// What becomes of a subscription whose endpoint is there already: it goes over to
/// the user and keys of the new one; platform and browser stay where none is given.
pub fn resubscribe(known: &PushSubscription, new: &PushSubscription) -> (r: PushSubscription)
    requires
        known.endpoint@ == new.endpoint@,
    ensures
        r.id == known.id,
        r.endpoint == known.endpoint,
        r.created_at == known.created_at,
        r.npub == new.npub,
        r.p256dh == new.p256dh,
        r.auth == new.auth,
        r.platform == (if new.platform is Some {
            new.platform
        } else {
            known.platform
        }),
        r.user_agent == (if new.user_agent is Some {
            new.user_agent
        } else {
            known.user_agent
        }),
        r.last_used == new.last_used,
{
    PushSubscription {
        id: known.id.clone(),
        npub: new.npub.clone(),
        endpoint: known.endpoint.clone(),
        p256dh: new.p256dh.clone(),
        auth: new.auth.clone(),
        platform: if new.platform.is_some() {
            copy_option(&new.platform)
        } else {
            copy_option(&known.platform)
        },
        user_agent: if new.user_agent.is_some() {
            copy_option(&new.user_agent)
        } else {
            copy_option(&known.user_agent)
        },
        created_at: known.created_at,
        last_used: new.last_used,
    }
}

/// Whether a request ends a subscription: only the user's own.
pub fn unsubscribe(auth: &AuthUser, body: &UnsubscribeRequest, row: &PushSubscription) -> (r: bool)
    ensures
        r == (row.endpoint@ == body.endpoint@ && row.npub@ == auth.npub@),
{
    row.endpoint == body.endpoint && row.npub == auth.npub
}

} // verus!
