//! Identities.

use vstd::prelude::*;
use vstd::string::*;

use crate::auth::AuthUser;
use crate::db::Identity;
use crate::error::AppError;
use crate::error::AppResult;
use crate::error::ErrorView;
use crate::error::refused_as;
use crate::text::copy_option;
use crate::text::or_default;
use crate::text::or_text;
use crate::text::same;

verus! {

pub struct UpsertIdentityRequest {
    pub name: Option<String>,
    pub role: Option<String>,
    pub lud16: Option<String>,
}

/// The role that a request asks for.
pub open spec fn requested_role(body: UpsertIdentityRequest) -> Seq<char> {
    or_text(body.role.deep_view(), "visitor"@)
}

/// The row that a request asks for.
pub fn upsert(auth: &AuthUser, body: &UpsertIdentityRequest, now: i64) -> (r: AppResult<Identity>)
    ensures
        refused_as(
            r,
            if requested_role(*body) != "visitor"@ && requested_role(*body) != "merchant"@ {
                Some(ErrorView::BadRequest("role must be visitor or merchant"@))
            } else {
                None
            },
        ),
        r matches Ok(row) ==> {
            &&& row.npub == auth.npub
            &&& row.public_key == auth.public_key
            &&& row.name == body.name
            &&& row.role@ == requested_role(*body)
            &&& row.lud16 == body.lud16
            &&& row.created_at == now
            &&& row.updated_at == now
        },
{
    let role: String = or_default(&body.role, "visitor");
    if !same(role.as_str(), "visitor") && !same(role.as_str(), "merchant") {
        return Err(AppError::bad_request("role must be visitor or merchant"));
    }
    Ok(
        Identity {
            npub: auth.npub.clone(),
            public_key: auth.public_key.clone(),
            name: copy_option(&body.name),
            role,
            lud16: copy_option(&body.lud16),
            created_at: now,
            updated_at: now,
        },
    )
}

/// What becomes of a row that is there already: name and address stay where none is
/// asked for, the role is the one asked for, the key and the time of entry stay.
pub fn merge(known: &Identity, asked: &Identity) -> (r: Identity)
    requires
        known.npub@ == asked.npub@,
    ensures
        r.npub == known.npub,
        r.public_key == known.public_key,
        r.name == (if asked.name is Some {
            asked.name
        } else {
            known.name
        }),
        r.role == asked.role,
        r.lud16 == (if asked.lud16 is Some {
            asked.lud16
        } else {
            known.lud16
        }),
        r.created_at == known.created_at,
        r.updated_at == asked.updated_at,
{
    Identity {
        npub: known.npub.clone(),
        public_key: known.public_key.clone(),
        name: if asked.name.is_some() {
            copy_option(&asked.name)
        } else {
            copy_option(&known.name)
        },
        role: asked.role.clone(),
        lud16: if asked.lud16.is_some() {
            copy_option(&asked.lud16)
        } else {
            copy_option(&known.lud16)
        },
        created_at: known.created_at,
        updated_at: asked.updated_at,
    }
}

/// The identity of an npub, where there is one.
pub fn get_by_npub(found: Option<Identity>, npub: &str) -> (r: AppResult<Identity>)
    ensures
        refused_as(
            r,
            if found is None {
                Some(ErrorView::NotFound("identity "@ + npub@ + " not found"@))
            } else {
                None
            },
        ),
        r matches Ok(row) ==> found == Some(row),
{
    match found {
        Some(row) => Ok(row),
        None => {
            let mut m: String = "identity ".to_owned();
            m.append(npub);
            m.append(" not found");
            Err(AppError::NotFound(m))
        },
    }
}

/// The bare identity of a user who is not known yet.
pub struct NewIdentity {
    pub npub: String,
    pub public_key: String,
    pub created_at: i64,
    pub updated_at: i64,
}

/// The row that makes a user known, where that is needed.
pub fn ensure_identity_exists(auth: &AuthUser, exists: bool, now: i64) -> (r: Option<NewIdentity>)
    ensures
        match r {
            Some(row) => {
                &&& !exists
                &&& row.npub == auth.npub
                &&& row.public_key == auth.public_key
                &&& row.created_at == now
                &&& row.updated_at == now
            },
            None => exists,
        },
{
    if exists {
        return None;
    }
    Some(
        NewIdentity {
            npub: auth.npub.clone(),
            public_key: auth.public_key.clone(),
            created_at: now,
            updated_at: now,
        },
    )
}

} // verus!
