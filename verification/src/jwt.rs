//! Session-token rules.
//!
//! The JWT encoding, signing and decoding are an outside collaborator at the
//! transport edge; what the library owns are the decisions: how long a token
//! lives, and which decoded claims authorize a request.

use vstd::prelude::*;

verus! {

use crate::vo::{Token, VoUser};

/// How long an access token lives, in seconds.
pub const ACCESS_TOKEN_LIFETIME: i64 = 60 * 60;

/// How long a refresh token lives, in seconds.
pub const REFRESH_TOKEN_LIFETIME: i64 = 60 * 60 * 24 * 7;

/// The expiry timestamp of a token issued at `now`: one hour for an access
/// token, seven days for a refresh token.
pub fn token_expiry(now: i64, is_refresh: bool) -> (r: i64)
    requires
        now + REFRESH_TOKEN_LIFETIME <= i64::MAX,
    ensures
        is_refresh ==> r == now + REFRESH_TOKEN_LIFETIME,
        !is_refresh ==> r == now + ACCESS_TOKEN_LIFETIME,
{
    if is_refresh {
        now + REFRESH_TOKEN_LIFETIME
    } else {
        now + ACCESS_TOKEN_LIFETIME
    }
}

/// Packages an encoded access token with the user projection it was issued
/// for.
pub fn gen_user_token(access_token: String, user: VoUser) -> (r: Token)
    ensures
        r.access_token == access_token,
        r.user == user,
{
    Token::new(access_token, user)
}

/// Judges decoded claims for a request: a refresh token never authorizes one.
pub fn validate_claims(user: VoUser, is_refresh: bool) -> (r: Option<VoUser>)
    ensures
        !is_refresh ==> r == Some(user),
        is_refresh ==> r is None,
{
    if is_refresh {
        None
    } else {
        Some(user)
    }
}

/// Judges decoded claims for a token exchange: only a refresh token may be
/// exchanged.
pub fn validate_refresh_claims(user: VoUser, is_refresh: bool) -> (r: Option<VoUser>)
    ensures
        is_refresh ==> r == Some(user),
        !is_refresh ==> r is None,
{
    if is_refresh {
        Some(user)
    } else {
        None
    }
}

} // verus!
