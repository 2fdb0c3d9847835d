//! The credential service: signing in with an email and a password, and
//! registering new credentials.
//!
//! The credential store is not reached from here. The program around this
//! module looks a record up by the email of the request and hands over what
//! it found; where a sign-up is accepted it inserts the record it is given
//! and hands over how the insert went.

use crate::claims::{fields_of, minted, AuthenticatedUser, Claims, SESSION_SECONDS};
use crate::clock::unix_seconds;
use crate::config::AppConfig;
use crate::error::AuthError;
use crate::gate::gate_outcome;
use crate::password::{
    bcrypt_verdict,
    check_password,
    hash_password,
    judge_verdict,
    verdict_outcome,
};
use crate::text::{contains, mentions};
use crate::token::{hs256_claims, issue, issued};
use vstd::prelude::*;

verus! {

/// A credential record as the store holds it. The password is kept as a
/// salted one-way hash and in no other form.
#[derive(Clone, Debug)]
pub struct CredentialRecord {
    pub id: i32,
    pub email: String,
    pub password: String,
    pub firstname: Option<String>,
    pub lastname: Option<String>,
}

/// A credential record that is yet to be inserted: the store gives it its
/// identity.
#[derive(Clone, Debug)]
pub struct NewCredential {
    pub email: String,
    pub password: String,
    pub firstname: Option<String>,
    pub lastname: Option<String>,
}

/// What the store answered when asked for the record with a given email.
#[derive(Clone, Debug)]
pub enum Lookup {
    /// The record with that email.
    Found(CredentialRecord),
    /// There is no record with that email.
    Missing,
    /// The store could not be asked.
    Failed,
}

/// How the insert of a new credential record went.
#[derive(Clone, Copy, Debug, PartialEq, Eq, Structural)]
pub enum InsertOutcome {
    /// The record is stored.
    Inserted,
    /// The store refused the record because its email is already there.
    Duplicate,
    /// The store could not take the record.
    Failed,
}

/// The body of a sign-in request.
#[derive(Clone, Debug)]
pub struct ReqSignIn {
    pub email: String,
    pub password: String,
}

/// The body of the answer to a sign-in.
#[derive(Clone, Debug)]
pub struct ResSignIn {
    pub token: String,
}

/// The body of a sign-up request.
#[derive(Clone, Debug)]
pub struct ReqSignUp {
    pub email: String,
    pub password: String,
    pub firstname: Option<String>,
    pub lastname: Option<String>,
}

/// What a signed-in caller is told about their own record.
#[derive(Clone, Debug)]
pub struct ResMe {
    pub id: i32,
    pub email: String,
    pub firstname: Option<String>,
    pub lastname: Option<String>,
}

/// Whom a sign-in with `password` is admitted as, given what the store
/// answered: the identity of the record that was found, where the password
/// matches its hash.
///
/// An unknown email and a password that does not match are refused alike.
pub open spec fn admitted(lookup: Lookup, password: Seq<char>) -> Result<i32, AuthError> {
    match lookup {
        Lookup::Failed => Err(AuthError::StorageError),
        Lookup::Missing => Err(AuthError::InvalidCredentials),
        Lookup::Found(record) => match verdict_outcome(bcrypt_verdict(password, record.password@)) {
            Err(e) => Err(e),
            Ok(_) => Ok(record.id),
        },
    }
}

/// The token a sign-in at the time `now` ends in, or the failure in its
/// place. A session whose expiry no timestamp can hold is not issued.
pub open spec fn sign_in_outcome(
    lookup: Lookup,
    password: Seq<char>,
    secret: Seq<char>,
    now: int,
) -> Result<Seq<char>, AuthError> {
    match admitted(lookup, password) {
        Err(e) => Err(e),
        Ok(id) => if now + SESSION_SECONDS > u64::MAX {
            Err(AuthError::InvalidToken)
        } else {
            issued(minted(id as int, now), secret)
        },
    }
}

/// The token a sign-in ends in when the clock read `clock`, `None` standing
/// for a clock that could not be read: credentials are judged as at any
/// time, and without the time no session is issued.
pub open spec fn sign_in_by_clock(
    lookup: Lookup,
    password: Seq<char>,
    secret: Seq<char>,
    clock: Option<u64>,
) -> Result<Seq<char>, AuthError> {
    match clock {
        Some(now) => sign_in_outcome(lookup, password, secret, now as int),
        None => match admitted(lookup, password) {
            Err(e) => Err(e),
            Ok(_) => Err(AuthError::InvalidToken),
        },
    }
}

/// Whether `token` is a session of `subject` that started at `now`: read
/// under `secret` it carries the claims minted for `subject` at `now`, and
/// the guard resolves it to `subject` at any time up to the session's end.
pub open spec fn is_session(token: Seq<char>, subject: i32, secret: Seq<char>, now: int) -> bool {
    &&& hs256_claims(token, secret) == Some(fields_of(minted(subject as int, now)))
    &&& forall|later: int|
        later <= now + SESSION_SECONDS ==> #[trigger] gate_outcome(Some(token), secret, later)
            == Ok::<AuthenticatedUser, AuthError>(AuthenticatedUser { id: subject })
}

/// Whether the answer `r` to a sign-in, where it holds a token, holds a
/// session of the record that was found, started at the time the clock
/// read.
pub open spec fn answers_with_session(
    r: Result<ResSignIn, AuthError>,
    lookup: Lookup,
    secret: Seq<char>,
    clock: Option<u64>,
) -> bool {
    r matches Ok(res) ==> {
        &&& lookup matches Lookup::Found(record)
        &&& clock matches Some(now)
        &&& is_session(res.token@, record.id, secret, now as int)
    }
}

/// The view of the answer to a sign-in.
pub open spec fn sign_in_view(r: Result<ResSignIn, AuthError>) -> Result<Seq<char>, AuthError> {
    match r {
        Ok(res) => Ok(res.token@),
        Err(e) => Err(e),
    }
}

/// Judges the credentials of `req` against what the store answered for its
/// email.
pub fn judge_credentials(req: &ReqSignIn, lookup: &Lookup) -> (r: Result<i32, AuthError>)
    ensures
        r == admitted(*lookup, req.password@),
{
    match lookup {
        Lookup::Found(record) => {
            let verdict = check_password(req.password.as_str(), record.password.as_str());
            match judge_verdict(verdict) {
                Ok(_) => Ok(record.id),
                Err(e) => Err(e),
            }
        },
        Lookup::Missing => Err(AuthError::InvalidCredentials),
        Lookup::Failed => Err(AuthError::StorageError),
    }
}

/// Signs in at the time `now` with the password of `req`, given what the
/// store answered for the email of `req`.
///
/// The result is exactly [`sign_in_outcome`]. A token is returned whenever
/// the credentials are admitted and the session's end can be stated. It is
/// a session of the record that was found, started at `now`: its claims are
/// those minted for the record at `now`, and the guard resolves it, under
/// the same secret and at any time up to the session's end, to the
/// identity of that record.
pub fn sign_in_at(req: &ReqSignIn, lookup: &Lookup, secret: &str, now: u64) -> (r: Result<
    ResSignIn,
    AuthError,
>)
    ensures
        sign_in_view(r) == sign_in_outcome(*lookup, req.password@, secret@, now as int),
        r is Ok <==> admitted(*lookup, req.password@) is Ok && now + SESSION_SECONDS <= u64::MAX,
        answers_with_session(r, *lookup, secret@, Some(now)),
{
    let subject = match judge_credentials(req, lookup) {
        Ok(id) => id,
        Err(e) => { return Err(e); },
    };
    if now > u64::MAX - SESSION_SECONDS {
        return Err(AuthError::InvalidToken);
    }
    let claims = Claims::mint(subject, now);
    match issue(&claims, secret) {
        Ok(token) => Ok(ResSignIn { token }),
        Err(e) => Err(e),
    }
}

/// Signs in given what the clock read, `None` where it could not be read.
///
/// The result is exactly [`sign_in_by_clock`]: with a reading it is the
/// sign-in at that time, and a token that is returned is a session started
/// at that time; without one the credentials are judged all the same, and
/// admitted credentials end in [`AuthError::InvalidToken`].
pub fn sign_in_with_clock(
    req: &ReqSignIn,
    lookup: &Lookup,
    secret: &str,
    clock: Option<u64>,
) -> (r: Result<ResSignIn, AuthError>)
    ensures
        sign_in_view(r) == sign_in_by_clock(*lookup, req.password@, secret@, clock),
        r is Ok <==> admitted(*lookup, req.password@) is Ok && (clock matches Some(now) && now
            + SESSION_SECONDS <= u64::MAX),
        answers_with_session(r, *lookup, secret@, clock),
{
    match clock {
        Some(now) => sign_in_at(req, lookup, secret, now),
        None => match judge_credentials(req, lookup) {
            Ok(_) => Err(AuthError::InvalidToken),
            Err(e) => Err(e),
        },
    }
}

/// Signs in against the configured secret, at the time the clock shows when
/// it is called.
///
/// Credentials that are not admitted are refused whatever the clock shows.
/// Admitted credentials end in a token, which is a session of the record
/// that was found, started at the time read, or in [`AuthError::InvalidToken`]
/// where the clock could not be read, because it stands before the Unix
/// epoch, or shows a time so late that the session's end cannot be stated.
pub fn sign_in(req: &ReqSignIn, lookup: &Lookup, config: &AppConfig) -> (r: Result<
    ResSignIn,
    AuthError,
>)
    ensures
        exists|clock: Option<u64>|
            {
                &&& sign_in_view(r) == #[trigger] sign_in_by_clock(
                    *lookup,
                    req.password@,
                    config.jwt_secret@,
                    clock,
                )
                &&& answers_with_session(r, *lookup, config.jwt_secret@, clock)
            },
        admitted(*lookup, req.password@) matches Err(e) ==> r == Err::<ResSignIn, AuthError>(e),
        admitted(*lookup, req.password@) is Ok && r is Err ==> r == Err::<ResSignIn, AuthError>(
            AuthError::InvalidToken,
        ),
{
    let clock = unix_seconds();
    sign_in_with_clock(req, lookup, config.jwt_secret.as_str(), clock)
}

/// Whether `r` is an outcome that a sign-up of `req` may end in, given what
/// the store answered for the email of `req`.
///
/// A record that was found forbids the sign-up, and a store that failed
/// fails it. Otherwise the sign-up either yields the record to insert, which
/// is the request with a hash in place of the password, one that the
/// password matches, or ends in [`AuthError::StorageError`].
pub open spec fn sign_up_allows(req: ReqSignUp, lookup: Lookup, r: Result<
    NewCredential,
    AuthError,
>) -> bool {
    match lookup {
        Lookup::Found(_) => r == Err::<NewCredential, AuthError>(AuthError::EmailTaken),
        Lookup::Failed => r == Err::<NewCredential, AuthError>(AuthError::StorageError),
        Lookup::Missing => match r {
            Ok(credential) => {
                &&& credential.email == req.email
                &&& credential.firstname == req.firstname
                &&& credential.lastname == req.lastname
                &&& bcrypt_verdict(req.password@, credential.password@) == Some(true)
            },
            Err(e) => e == AuthError::StorageError,
        },
    }
}

/// The record to insert for `req` once its password was hashed, `None`
/// standing for a hashing that failed.
pub open spec fn credential_from(req: ReqSignUp, hashed: Option<String>) -> Result<
    NewCredential,
    AuthError,
> {
    match hashed {
        Some(hash) => Ok(
            (NewCredential {
                email: req.email,
                password: hash,
                firstname: req.firstname,
                lastname: req.lastname,
            }),
        ),
        None => Err(AuthError::StorageError),
    }
}

/// Makes the record to insert out of `req` and the hash of its password:
/// the request as it is, with the hash in place of the password. Where
/// hashing failed there is no record, and the sign-up ends in
/// [`AuthError::StorageError`].
pub fn credential_of(req: ReqSignUp, hashed: Option<String>) -> (r: Result<NewCredential, AuthError>)
    ensures
        r == credential_from(req, hashed),
{
    match hashed {
        Some(hash) => Ok(
            NewCredential {
                email: req.email,
                password: hash,
                firstname: req.firstname,
                lastname: req.lastname,
            },
        ),
        None => Err(AuthError::StorageError),
    }
}

/// Registers the credentials of `req`, given what the store answered for
/// the email of `req`: yields the record to insert, or the reason there is
/// nothing to insert.
///
/// Where the email is free, the password is hashed and the result is what
/// [`credential_of`] makes of the request and the outcome of hashing.
pub fn sign_up(req: ReqSignUp, lookup: &Lookup) -> (r: Result<NewCredential, AuthError>)
    ensures
        sign_up_allows(req, *lookup, r),
        lookup is Missing ==> exists|hashed: Option<String>| r == #[trigger] credential_from(req, hashed),
{
    match lookup {
        Lookup::Found(_) => { return Err(AuthError::EmailTaken); },
        Lookup::Failed => { return Err(AuthError::StorageError); },
        Lookup::Missing => {},
    }
    let hashed = hash_password(req.password.as_str());
    credential_of(req, hashed)
}

/// What is made of a store's answer to an insert: `failure` is the text of
/// the store's error, or `None` where the insert went through. The error of
/// a refused duplicate says `Duplicate entry`.
pub open spec fn insert_outcome_of(failure: Option<Seq<char>>) -> InsertOutcome {
    match failure {
        None => InsertOutcome::Inserted,
        Some(text) => if mentions(text, "Duplicate entry"@) {
            InsertOutcome::Duplicate
        } else {
            InsertOutcome::Failed
        },
    }
}

/// Tells how an insert went from the text of the store's error, `None`
/// where there was none: a refused duplicate apart from any other failure.
pub fn insert_outcome(failure: Option<&str>) -> (o: InsertOutcome)
    ensures
        o == insert_outcome_of(
            match failure {
                Some(text) => Some(text@),
                None => None,
            },
        ),
        failure is None <==> o == InsertOutcome::Inserted,
{
    match failure {
        None => InsertOutcome::Inserted,
        Some(text) => {
            if contains(text, "Duplicate entry") {
                InsertOutcome::Duplicate
            } else {
                InsertOutcome::Failed
            }
        },
    }
}

/// What a sign-up answers once the insert was tried.
pub open spec fn acknowledged(outcome: InsertOutcome) -> Result<Seq<char>, AuthError> {
    match outcome {
        InsertOutcome::Inserted => Ok("Account created!"@),
        InsertOutcome::Duplicate => Err(AuthError::EmailTaken),
        InsertOutcome::Failed => Err(AuthError::StorageError),
    }
}

/// The view of an acknowledgment, or the failure in its place.
pub open spec fn text_view(r: Result<String, AuthError>) -> Result<Seq<char>, AuthError> {
    match r {
        Ok(text) => Ok(text@),
        Err(e) => Err(e),
    }
}

/// Concludes a sign-up from how the insert went. An email that the store
/// refused as a duplicate is taken, though no record with it was found
/// before the insert.
pub fn acknowledge(outcome: InsertOutcome) -> (r: Result<String, AuthError>)
    ensures
        text_view(r) == acknowledged(outcome),
{
    match outcome {
        InsertOutcome::Inserted => Ok("Account created!".to_owned()),
        InsertOutcome::Duplicate => Err(AuthError::EmailTaken),
        InsertOutcome::Failed => Err(AuthError::StorageError),
    }
}

/// What the caller is told about their own record: everything but the
/// password hash.
pub fn me(record: CredentialRecord) -> (res: ResMe)
    ensures
        res.id == record.id,
        res.email == record.email,
        res.firstname == record.firstname,
        res.lastname == record.lastname,
{
    ResMe {
        id: record.id,
        email: record.email,
        firstname: record.firstname,
        lastname: record.lastname,
    }
}

/// Answers a caller who asks for their own record, given what the store
/// answered for the caller's identity.
///
/// A token outlives the record it was issued for. Where the record is gone,
/// or the store could not be asked, the request ends in
/// [`AuthError::StorageError`]; the token is not thereby judged.
pub fn own_record(found: Lookup) -> (r: Result<ResMe, AuthError>)
    ensures
        match found {
            Lookup::Found(record) => r matches Ok(res) && res.id == record.id && res.email
                == record.email && res.firstname == record.firstname && res.lastname
                == record.lastname,
            Lookup::Missing => r == Err::<ResMe, AuthError>(AuthError::StorageError),
            Lookup::Failed => r == Err::<ResMe, AuthError>(AuthError::StorageError),
        },
{
    match found {
        Lookup::Found(record) => Ok(me(record)),
        Lookup::Missing => Err(AuthError::StorageError),
        Lookup::Failed => Err(AuthError::StorageError),
    }
}

/// A sign-up with an email that the store already holds ends in
/// [`AuthError::EmailTaken`] and yields no record, so nothing is written.
pub proof fn law_taken_email(req: ReqSignUp, record: CredentialRecord, r: Result<
    NewCredential,
    AuthError,
>)
    requires
        sign_up_allows(req, Lookup::Found(record), r),
    ensures
        r == Err::<NewCredential, AuthError>(AuthError::EmailTaken),
        !(r is Ok),
{
}

/// After a sign-up, a sign-in with the same password is admitted: whatever
/// identity the store gave the record that the sign-up yielded, the
/// credentials are admitted as that identity, and the sign-in ends in the
/// token of a session for it.
pub proof fn law_sign_in_after_sign_up(
    req: ReqSignUp,
    credential: NewCredential,
    record: CredentialRecord,
    secret: Seq<char>,
    now: int,
)
    requires
        sign_up_allows(req, Lookup::Missing, Ok(credential)),
        record.password == credential.password,
        now + SESSION_SECONDS <= u64::MAX,
    ensures
        admitted(Lookup::Found(record), req.password@) == Ok::<i32, AuthError>(record.id),
        sign_in_outcome(Lookup::Found(record), req.password@, secret, now) == issued(
            minted(record.id as int, now),
            secret,
        ),
        sign_in_outcome(Lookup::Found(record), req.password@, secret, now) != Err::<
            Seq<char>,
            AuthError,
        >(AuthError::InvalidCredentials),
{
}

/// A sign-in is turned away with [`AuthError::InvalidCredentials`] in two
/// cases, which the answer does not tell apart: no record has the email, or
/// the password does not match the record's hash.
pub proof fn law_invalid_credentials(
    lookup: Lookup,
    password: Seq<char>,
    secret: Seq<char>,
    now: int,
)
    ensures
        sign_in_outcome(lookup, password, secret, now) == Err::<Seq<char>, AuthError>(
            AuthError::InvalidCredentials,
        ) <==> (lookup is Missing || (lookup matches Lookup::Found(record) && bcrypt_verdict(
            password,
            record.password@,
        ) == Some(false))),
{
}

} // verus!
