//! Replies of the account routes (profile, balances) and of the health check.
use vstd::prelude::*;
use crate::outcome::{ApiError, DbError, INTERNAL_SERVER_ERROR, NOT_FOUND};
use crate::records::{Timestamp, User, UserAssets};

verus! {

/// The profile of the caller.
pub struct UserProfileData {
    pub id: u128,
    pub username: String,
    pub email: String,
    pub created_at: Timestamp,
}

/// Envelope of the profile reply.
pub struct UserProfileResponse {
    pub message: String,
    pub success: bool,
    pub data: UserProfileData,
}

/// One balance of the caller, per asset.
pub struct UserAssetsData {
    pub asset_id: u128,
    pub available: rust_decimal::Decimal,
    pub locked: rust_decimal::Decimal,
    pub updated_at: Timestamp,
}

/// Envelope of the balances reply.
pub struct UserAssetsResponse {
    pub message: String,
    pub success: bool,
    pub data: Vec<UserAssetsData>,
}

/// Body of the health check.
pub struct HealthResponse {
    pub status: String,
}

/// Reply to `GET /user/profile` from the lookup of the caller's account: a failed
/// lookup is a server error with the driver's message, a missing account is
/// `404 user not found`.
pub fn user_profile_reply(lookup: Result<Option<User>, DbError>) -> (res: Result<
    UserProfileResponse,
    ApiError,
>)
    ensures
        match lookup {
            Err(e) => res matches Err(r) && r@ == (INTERNAL_SERVER_ERROR, e.text()),
            Ok(None) => res matches Err(r) && r@ == (NOT_FOUND, "user not found"@),
            Ok(Some(u)) => res matches Ok(r) && r.message@ == "user profile fetched successfully"@
                && r.success && r.data.id == u.id && r.data.username == u.username && r.data.email
                == u.email && r.data.created_at == u.created_at,
        },
{
    match lookup {
        Err(e) => Err(e.into_server_error()),
        Ok(None) => Err(ApiError::new(NOT_FOUND, "user not found")),
        Ok(Some(u)) => Ok(
            UserProfileResponse {
                message: "user profile fetched successfully".to_owned(),
                success: true,
                data: UserProfileData {
                    id: u.id,
                    username: u.username,
                    email: u.email,
                    created_at: u.created_at,
                },
            },
        ),
    }
}

/// Whether `data` reports the balance `b`.
pub open spec fn reports_balance(data: UserAssetsData, b: UserAssets) -> bool {
    &&& data.asset_id == b.asset_id
    &&& data.available == b.available
    &&& data.locked == b.locked
    &&& data.updated_at == b.updated_at
}

/// Reply to `GET /user/balances` from the caller's rows of `user_assets`: one
/// entry per row, in the rows' order; a failed query is a server error with the
/// driver's message.
pub fn user_assets_reply(balances: Result<Vec<UserAssets>, DbError>) -> (res: Result<
    UserAssetsResponse,
    ApiError,
>)
    ensures
        match balances {
            Err(e) => res matches Err(r) && r@ == (INTERNAL_SERVER_ERROR, e.text()),
            Ok(rows) => res matches Ok(r) && r.message@ == "successfully fetched user balances"@
                && r.success && r.data@.len() == rows@.len() && (forall|i: int|
                0 <= i < rows@.len() ==> reports_balance(#[trigger] r.data@[i], rows@[i])) && (
            forall|i: int|
                #![trigger r.data@[i]]
                0 <= i < rows@.len() ==> r.data@[i].asset_id == rows@[i].asset_id
                    && r.data@[i].available == rows@[i].available && r.data@[i].locked
                    == rows@[i].locked && r.data@[i].updated_at == rows@[i].updated_at),
        },
{
    match balances {
        Err(e) => Err(e.into_server_error()),
        Ok(rows) => {
            let mut data: Vec<UserAssetsData> = Vec::new();
            let mut i: usize = 0;
            while i < rows.len()
                invariant
                    i <= rows@.len(),
                    data@.len() == i,
                    forall|j: int| 0 <= j < i ==> reports_balance(#[trigger] data@[j], rows@[j]),
                decreases rows@.len() - i,
            {
                let b = &rows[i];
                data.push(
                    UserAssetsData {
                        asset_id: b.asset_id,
                        available: b.available,
                        locked: b.locked,
                        updated_at: b.updated_at,
                    },
                );
                i = i + 1;
            }
            Ok(
                UserAssetsResponse {
                    message: "successfully fetched user balances".to_owned(),
                    success: true,
                    data,
                },
            )
        },
    }
}

/// A balance entry reports its row's asset, available and locked amounts and
/// update time, each in its own place.
pub proof fn balance_entry_reports_its_row(data: UserAssetsData, b: UserAssets)
    requires
        reports_balance(data, b),
    ensures
        data.asset_id == b.asset_id,
        data.available == b.available,
        data.locked == b.locked,
        data.updated_at == b.updated_at,
{
}

/// Body of `GET /health`.
pub fn health_status() -> (r: HealthResponse)
    ensures
        r.status@ == "healthy!"@,
{
    HealthResponse { status: "healthy!".to_owned() }
}

} // verus!
