//! Session claims and the identity they resolve to.

use vstd::prelude::*;

verus! {

/// How long a session lasts, in seconds: four hours from the moment of issue.
pub const SESSION_SECONDS: u64 = 4 * 60 * 60;

/// The role every session carries.
pub open spec fn user_role() -> Seq<char> {
    "user"@
}

/// What a session token says about its bearer.
///
/// Claims are fixed when the token is minted and travel inside it; the
/// service keeps no record of the sessions it has issued.
#[derive(Clone, Debug)]
pub struct Claims {
    /// Identity of the credential record the session belongs to.
    pub sub: i32,
    /// Role of the bearer.
    pub role: String,
    /// Moment the session ends, in seconds since the Unix epoch.
    pub exp: u64,
}

/// Mathematical model of [`Claims`].
pub ghost struct ClaimsView {
    pub sub: int,
    pub role: Seq<char>,
    pub exp: int,
}

impl View for Claims {
    type V = ClaimsView;

    open spec fn view(&self) -> ClaimsView {
        ClaimsView { sub: self.sub as int, role: self.role@, exp: self.exp as int }
    }
}

/// The caller a valid token resolves to. It lives for one request.
#[derive(Clone, Copy, Debug, PartialEq, Eq, Structural)]
pub struct AuthenticatedUser {
    /// Identity of the caller's credential record.
    pub id: i32,
}

/// The three claim fields as they were found in a token's payload, each
/// absent where the payload had no field of that name or one of another type.
#[derive(Clone, Debug)]
pub struct ClaimFields {
    /// The `sub` field, where it is an integer.
    pub sub: Option<i64>,
    /// The `role` field, where it is a string.
    pub role: Option<String>,
    /// The `exp` field, where it is a non-negative integer.
    pub exp: Option<u64>,
}

/// Mathematical model of [`ClaimFields`].
pub ghost struct ClaimFieldsView {
    pub sub: Option<int>,
    pub role: Option<Seq<char>>,
    pub exp: Option<int>,
}

impl View for ClaimFields {
    type V = ClaimFieldsView;

    open spec fn view(&self) -> ClaimFieldsView {
        ClaimFieldsView {
            sub: match self.sub {
                Some(s) => Some(s as int),
                None => None,
            },
            role: match self.role {
                Some(r) => Some(r@),
                None => None,
            },
            exp: match self.exp {
                Some(e) => Some(e as int),
                None => None,
            },
        }
    }
}

/// The payload fields that a token minted from `claims` carries.
pub open spec fn fields_of(claims: ClaimsView) -> ClaimFieldsView {
    ClaimFieldsView { sub: Some(claims.sub), role: Some(claims.role), exp: Some(claims.exp) }
}

/// The claims that payload fields amount to: all three must be present, and
/// the subject must be a 32-bit identity.
pub open spec fn claims_of(fields: ClaimFieldsView) -> Option<ClaimsView> {
    match (fields.sub, fields.role, fields.exp) {
        (Some(sub), Some(role), Some(exp)) => if i32::MIN <= sub <= i32::MAX {
            Some(ClaimsView { sub, role, exp })
        } else {
            None
        },
        _ => None,
    }
}

/// The claims of a session for `subject` that starts at `issued_at`.
pub open spec fn minted(subject: int, issued_at: int) -> ClaimsView {
    ClaimsView { sub: subject, role: user_role(), exp: issued_at + SESSION_SECONDS }
}

impl Claims {
    /// Claims for a session of the record `subject` that starts at
    /// `issued_at`: the role is `"user"` and the session ends four hours
    /// later.
    pub fn mint(subject: i32, issued_at: u64) -> (claims: Claims)
        requires
            issued_at + SESSION_SECONDS <= u64::MAX,
        ensures
            claims@ == minted(subject as int, issued_at as int),
    {
        Claims { sub: subject, role: "user".to_owned(), exp: issued_at + SESSION_SECONDS }
    }

    /// Whether the session has ended at `now`: its expiry lies strictly in
    /// the past.
    pub fn is_expired(&self, now: u64) -> (expired: bool)
        ensures
            expired == (self.exp < now),
    {
        self.exp < now
    }
}

impl ClaimFields {
    /// Reads the fields as claims. The result is `None` where a field is
    /// absent or the subject does not fit a 32-bit identity.
    pub fn into_claims(self) -> (claims: Option<Claims>)
        ensures
            match claims {
                Some(c) => claims_of(self@) == Some(c@),
                None => claims_of(self@) is None,
            },
    {
        match (self.sub, self.role, self.exp) {
            (Some(sub), Some(role), Some(exp)) => {
                if -2147483648 <= sub && sub <= 2147483647 {
                    Some(Claims { sub: sub as i32, role, exp })
                } else {
                    None
                }
            },
            _ => None,
        }
    }
}

} // verus!
