//! The authentication guard: from the token a request carries to the caller
//! it stands for, or to the reason the request is turned away.
//!
//! The guard looks nothing up. It trusts what a validly signed token says for
//! as long as the token lasts, so a session outlives the deletion of its
//! credential record until it expires.

use crate::claims::{claims_of, AuthenticatedUser, ClaimFields, ClaimFieldsView};
use crate::config::AppConfig;
use crate::error::AuthError;
use crate::clock::unix_seconds;
use crate::token::{fields_view, hs256_claims, read};
use vstd::prelude::*;

verus! {

/// What the guard makes, at the time `now`, of the claim fields read from a
/// verified token (`None` where verification failed).
///
/// A token passes when all three claims were read, the subject is an
/// identity, and the expiry is not strictly before `now`. Every other token
/// is rejected for one and the same reason.
pub open spec fn resolved(decoded: Option<ClaimFieldsView>, now: int) -> Result<
    AuthenticatedUser,
    AuthError,
> {
    match decoded {
        None => Err(AuthError::InvalidToken),
        Some(fields) => match claims_of(fields) {
            None => Err(AuthError::InvalidToken),
            Some(claims) => if claims.exp < now {
                Err(AuthError::InvalidToken)
            } else {
                Ok(AuthenticatedUser { id: claims.sub as i32 })
            },
        },
    }
}

/// What the guard answers, at the time `now`, to a request that carried
/// `raw_token`, when tokens are signed with `secret`.
pub open spec fn gate_outcome(raw_token: Option<Seq<char>>, secret: Seq<char>, now: int) -> Result<
    AuthenticatedUser,
    AuthError,
> {
    match raw_token {
        None => Err(AuthError::TokenAbsent),
        Some(token) => resolved(hs256_claims(token, secret), now),
    }
}

/// The view of a token that may be absent.
pub open spec fn raw_view(raw_token: Option<&str>) -> Option<Seq<char>> {
    match raw_token {
        Some(token) => Some(token@),
        None => None,
    }
}

/// Decides on the claim fields read from a token whose signature was
/// verified, or on `None` where verification failed.
pub fn resolve(decoded: Option<ClaimFields>, now: u64) -> (r: Result<AuthenticatedUser, AuthError>)
    ensures
        r == resolved(fields_view(decoded), now as int),
{
    let fields = match decoded {
        Some(fields) => fields,
        None => { return Err(AuthError::InvalidToken); },
    };
    match fields.into_claims() {
        Some(claims) => {
            if claims.is_expired(now) {
                Err(AuthError::InvalidToken)
            } else {
                Ok(AuthenticatedUser { id: claims.sub })
            }
        },
        None => Err(AuthError::InvalidToken),
    }
}

/// Authenticates a request at the time `now`.
///
/// A request without a token is answered with [`AuthError::TokenAbsent`].
/// A token is verified under `secret`; one that is malformed, wrongly
/// signed, incomplete or expired is answered with
/// [`AuthError::InvalidToken`], whichever of these it is. Otherwise the
/// request resolves to the subject of the token's claims.
pub fn authenticate(raw_token: Option<&str>, secret: &str, now: u64) -> (r: Result<
    AuthenticatedUser,
    AuthError,
>)
    ensures
        r == gate_outcome(raw_view(raw_token), secret@, now as int),
{
    match raw_token {
        None => Err(AuthError::TokenAbsent),
        Some(token) => resolve(read(token, secret), now),
    }
}

/// What the guard answers to a request that carried `raw_token` when the
/// clock read `clock`, `None` standing for a clock that could not be read.
///
/// Without the time no expiry can be judged, so every token is then
/// rejected; a request without a token is answered as at any other time.
pub open spec fn gate_outcome_by_clock(
    raw_token: Option<Seq<char>>,
    secret: Seq<char>,
    clock: Option<u64>,
) -> Result<AuthenticatedUser, AuthError> {
    match raw_token {
        None => Err(AuthError::TokenAbsent),
        Some(token) => match clock {
            None => Err(AuthError::InvalidToken),
            Some(now) => resolved(hs256_claims(token, secret), now as int),
        },
    }
}

/// Authenticates a request given what the clock read, `None` where it could
/// not be read. A token is looked at only where the clock was read.
pub fn authenticate_by_clock(raw_token: Option<&str>, secret: &str, clock: Option<u64>) -> (r:
    Result<AuthenticatedUser, AuthError>)
    ensures
        r == gate_outcome_by_clock(raw_view(raw_token), secret@, clock),
        clock matches Some(now) ==> r == gate_outcome(raw_view(raw_token), secret@, now as int),
{
    match raw_token {
        None => Err(AuthError::TokenAbsent),
        Some(token) => match clock {
            None => Err(AuthError::InvalidToken),
            Some(now) => authenticate(Some(token), secret, now),
        },
    }
}

impl AuthenticatedUser {
    /// Authenticates a request against the configured secret, at the time
    /// the clock shows when it is called.
    ///
    /// The clock is read first. Where it cannot be read, because it stands
    /// before the Unix epoch, a request without a token is still answered
    /// with [`AuthError::TokenAbsent`], and any token is answered with
    /// [`AuthError::InvalidToken`] without being looked at.
    pub fn from_request(raw_token: Option<&str>, config: &AppConfig) -> (r: Result<
        AuthenticatedUser,
        AuthError,
    >)
        ensures
            exists|clock: Option<u64>|
                r == #[trigger] gate_outcome_by_clock(
                    raw_view(raw_token),
                    config.jwt_secret@,
                    clock,
                ),
            raw_token is None <==> r == Err::<AuthenticatedUser, AuthError>(
                AuthError::TokenAbsent,
            ),
            raw_token is Some && r is Err ==> r == Err::<AuthenticatedUser, AuthError>(
                AuthError::InvalidToken,
            ),
    {
        let clock = unix_seconds();
        authenticate_by_clock(raw_token, config.jwt_secret.as_str(), clock)
    }
}

/// A request without a token is told that the token is absent, at any time
/// and under any secret: never that a token was invalid.
pub proof fn law_absent_token(secret: Seq<char>, now: int)
    ensures
        gate_outcome(None, secret, now) == Err::<AuthenticatedUser, AuthError>(
            AuthError::TokenAbsent,
        ),
{
}

/// A token whose claims have an expiry in the past is invalid, whether or
/// not its signature holds: `decoded` is what verification read from it, or
/// `None` where the signature did not hold.
pub proof fn law_expired_token(decoded: Option<ClaimFieldsView>, now: int)
    requires
        decoded matches Some(fields) ==> (fields.exp matches Some(exp) && exp < now),
    ensures
        resolved(decoded, now) == Err::<AuthenticatedUser, AuthError>(AuthError::InvalidToken),
        forall|token: Seq<char>, secret: Seq<char>|
            hs256_claims(token, secret) == decoded ==> #[trigger] gate_outcome(
                Some(token),
                secret,
                now,
            ) == Err::<AuthenticatedUser, AuthError>(AuthError::InvalidToken),
{
}

/// A request that presents a token is never told that the token is absent,
/// and a request that is let through is let through as the subject of the
/// token's claims, which have not expired.
pub proof fn law_presented_token(token: Seq<char>, secret: Seq<char>, now: int)
    ensures
        gate_outcome(Some(token), secret, now) != Err::<AuthenticatedUser, AuthError>(
            AuthError::TokenAbsent,
        ),
        gate_outcome(Some(token), secret, now) matches Ok(user) ==> {
            &&& hs256_claims(token, secret) matches Some(fields)
            &&& claims_of(fields) matches Some(claims)
            &&& claims.sub == user.id
            &&& now <= claims.exp
        },
        gate_outcome(Some(token), secret, now) is Err ==> gate_outcome(Some(token), secret, now)
            == Err::<AuthenticatedUser, AuthError>(AuthError::InvalidToken),
{
}

} // verus!
