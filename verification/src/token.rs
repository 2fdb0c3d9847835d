//! Signed session tokens: JSON Web Tokens under HS256.
//!
//! A token is three sections divided by dots: a header, a payload and a
//! signature over the first two. Dividing a token is this module's own
//! work. Making a token, reading its header, checking its signature,
//! decoding its payload and parsing the payload are done by the
//! `jsonwebtoken`, `base64` and `serde_json` crates, whose work is not
//! verified here. What this module takes on trust about them is stated in
//! the contracts of the five private functions that call them, over a name
//! for what each computes. None of the calls reads the clock.

use crate::claims::{fields_of, ClaimFields, ClaimFieldsView, Claims, ClaimsView};
use crate::error::AuthError;
use vstd::prelude::*;
use vstd::string::StrSliceExecFns;
use vstd::utf8::is_ascii_chars;

verus! {

/// The error type of `jsonwebtoken`. Its contents are not looked at.
#[verifier::external_type_specification]
#[verifier::external_body]
pub struct ExTokenError(jsonwebtoken::errors::Error);

/// The error type of `base64`'s decoders. Its contents are not looked at.
#[verifier::external_type_specification]
#[verifier::external_body]
pub struct ExDecodeError(base64::DecodeError);

/// The error type of `serde_json`. Its contents are not looked at.
#[verifier::external_type_specification]
#[verifier::external_body]
pub struct ExJsonError(serde_json::Error);

/// The token that `jsonwebtoken::encode` makes, with the default header
/// (`typ` JWT, `alg` HS256), of the claims `sub`, `role` and `exp` under the
/// HMAC key `secret`; `None` where it returns an error.
pub uninterp spec fn hs256_token(sub: int, role: Seq<char>, exp: int, secret: Seq<char>) -> Option<
    Seq<char>,
>;

/// Whether the header that `jsonwebtoken::decode_header` reads from `token`
/// names the algorithm HS256; `None` where it returns an error, as it does
/// for a header that is no base64url text or no JSON header.
pub uninterp spec fn header_is_hs256(token: Seq<char>) -> Option<bool>;

/// What `jsonwebtoken::crypto::verify` returns under HS256: whether
/// `signature` is the base64url text of the HMAC-SHA256 of `message` under
/// the key `secret`; `None` where it returns an error.
pub uninterp spec fn signature_holds(
    signature: Seq<char>,
    message: Seq<char>,
    secret: Seq<char>,
) -> Option<bool>;

/// The bytes that `base64`'s `URL_SAFE_NO_PAD` engine decodes `text` to;
/// `None` where it returns an error.
pub uninterp spec fn base64url_bytes(text: Seq<char>) -> Option<Seq<u8>>;

/// The three claim fields of the JSON value that `serde_json::from_slice`
/// parses `payload` to; `None` where it returns an error.
pub uninterp spec fn json_claim_fields(payload: Seq<u8>) -> Option<ClaimFieldsView>;

/// Where the last dot of `text` stands, or `-1` where it has none.
pub open spec fn last_dot(text: Seq<char>) -> int
    decreases text.len(),
{
    if text.len() == 0 {
        -1
    } else if text.last() == '.' {
        text.len() - 1
    } else {
        last_dot(text.drop_last())
    }
}

/// The sections of a token that its verification works on.
#[derive(Clone, Debug)]
pub struct TokenSections {
    /// Header and payload as they were signed: all that stands before the
    /// last dot.
    pub message: String,
    /// What stands between the last two dots.
    pub payload: String,
    /// What stands after the last dot.
    pub signature: String,
}

/// Mathematical model of [`TokenSections`].
pub ghost struct TokenParts {
    pub message: Seq<char>,
    pub payload: Seq<char>,
    pub signature: Seq<char>,
}

impl View for TokenSections {
    type V = TokenParts;

    open spec fn view(&self) -> TokenParts {
        TokenParts {
            message: self.message@,
            payload: self.payload@,
            signature: self.signature@,
        }
    }
}

/// The sections of `token`, divided at its last dot and at the last dot
/// before that; `None` for a text with fewer than two dots or with a
/// character outside ASCII, which no token holds.
pub open spec fn token_parts(token: Seq<char>) -> Option<TokenParts> {
    let cut = last_dot(token);
    let message = token.subrange(0, cut);
    let inner = last_dot(message);
    if !is_ascii_chars(token) || cut < 0 || inner < 0 {
        None
    } else {
        Some(
            TokenParts {
                message,
                payload: message.subrange(inner + 1, cut),
                signature: token.subrange(cut + 1, token.len() as int),
            },
        )
    }
}

/// The claim fields that `token` carries when it is verified under
/// `secret`: the payload's fields, where the token divides into sections,
/// its header names HS256, its signature holds over header and payload, and
/// its payload decodes and parses. `None` for every other token. The expiry
/// is read, not judged.
pub open spec fn hs256_claims(token: Seq<char>, secret: Seq<char>) -> Option<ClaimFieldsView> {
    match token_parts(token) {
        None => None,
        Some(parts) => if sealed(
            header_is_hs256(token),
            signature_holds(parts.signature, parts.message, secret),
        ) {
            match base64url_bytes(parts.payload) {
                Some(bytes) => json_claim_fields(bytes),
                None => None,
            }
        } else {
            None
        },
    }
}

/// Whether a token is to be believed, given what reading its header and
/// checking its signature came to: both must have succeeded, the header
/// naming HS256 and the signature holding.
pub open spec fn sealed(header: Option<bool>, signature: Option<bool>) -> bool {
    header == Some(true) && signature == Some(true)
}

/// Calls `jsonwebtoken::encode` with the default header on a JSON object of
/// the three claims, keyed by `EncodingKey::from_secret`.
///
/// Trusted: the call is a function of its arguments. It returns a token:
/// the key is an HMAC key and the default header names an HMAC algorithm, a
/// header and an object of integers and strings are written as JSON without
/// error, and signing with HMAC has no error path. The token is the
/// base64url text of the header, a dot, the base64url text of the payload,
/// a dot, and the base64url text of the signature over what precedes it;
/// base64url text holds no dot and no character outside ASCII. So the token
/// reads back under the same secret, in the sense of [`hs256_claims`], as
/// the three fields it was made from: JSON gives integers and strings back
/// unchanged.
#[verifier::external_body]
fn encode_hs256(claims: &Claims, secret: &str) -> (r: Result<String, jsonwebtoken::errors::Error>)
    ensures
        r is Ok,
        match r {
            Ok(token) => {
                &&& hs256_token(claims@.sub, claims@.role, claims@.exp, secret@) == Some(token@)
                &&& hs256_claims(token@, secret@) == Some(fields_of(claims@))
            },
            Err(_) => hs256_token(claims@.sub, claims@.role, claims@.exp, secret@) is None,
        },
{
    let mut payload = serde_json::Map::new();
    payload.insert("sub".to_owned(), serde_json::Value::from(claims.sub));
    payload.insert("role".to_owned(), serde_json::Value::from(claims.role.as_str()));
    payload.insert("exp".to_owned(), serde_json::Value::from(claims.exp));
    let key = jsonwebtoken::EncodingKey::from_secret(secret.as_bytes());
    jsonwebtoken::encode(&jsonwebtoken::Header::default(), &payload, &key)
}

/// Calls `jsonwebtoken::decode_header` and tells HS256 from the other
/// algorithms a header can name.
#[verifier::external_body]
fn read_header(token: &str) -> (r: Result<bool, jsonwebtoken::errors::Error>)
    ensures
        match r {
            Ok(hs256) => header_is_hs256(token@) == Some(hs256),
            Err(_) => header_is_hs256(token@) is None,
        },
{
    let header = jsonwebtoken::decode_header(token)?;
    Ok(match header.alg {
        jsonwebtoken::Algorithm::HS256 => true,
        _ => false,
    })
}

/// Calls `jsonwebtoken::crypto::verify` under HS256, keyed by
/// `DecodingKey::from_secret`: the signature is computed anew and compared
/// with the one given, in time that does not depend on where they differ.
#[verifier::external_body]
fn check_signature(signature: &str, message: &str, secret: &str) -> (r: Result<
    bool,
    jsonwebtoken::errors::Error,
>)
    ensures
        match r {
            Ok(holds) => signature_holds(signature@, message@, secret@) == Some(holds),
            Err(_) => signature_holds(signature@, message@, secret@) is None,
        },
{
    let key = jsonwebtoken::DecodingKey::from_secret(secret.as_bytes());
    jsonwebtoken::crypto::verify(
        signature,
        message.as_bytes(),
        &key,
        jsonwebtoken::Algorithm::HS256,
    )
}

/// Calls `decode` of `base64`'s `URL_SAFE_NO_PAD` engine.
#[verifier::external_body]
fn decode_base64url(text: &str) -> (r: Result<Vec<u8>, base64::DecodeError>)
    ensures
        match r {
            Ok(bytes) => base64url_bytes(text@) == Some(bytes@),
            Err(_) => base64url_bytes(text@) is None,
        },
{
    base64::Engine::decode(&base64::engine::general_purpose::URL_SAFE_NO_PAD, text)
}

/// Calls `serde_json::from_slice` for a JSON value and picks the three
/// fields out of it: `sub` where it is an integer, `role` where it is a
/// string, `exp` where it is a non-negative integer.
#[verifier::external_body]
fn parse_claim_fields(payload: &Vec<u8>) -> (r: Result<ClaimFields, serde_json::Error>)
    ensures
        match r {
            Ok(fields) => json_claim_fields(payload@) == Some(fields@),
            Err(_) => json_claim_fields(payload@) is None,
        },
{
    let value: serde_json::Value = serde_json::from_slice(payload)?;
    Ok(ClaimFields {
        sub: value.get("sub").and_then(|v| v.as_i64()),
        role: value.get("role").and_then(|v| v.as_str()).map(|s| s.to_owned()),
        exp: value.get("exp").and_then(|v| v.as_u64()),
    })
}

/// The token that signing `claims` under `secret` yields, or the failure it
/// is reported as.
pub open spec fn issued(claims: ClaimsView, secret: Seq<char>) -> Result<Seq<char>, AuthError> {
    match hs256_token(claims.sub, claims.role, claims.exp, secret) {
        Some(token) => Ok(token),
        None => Err(AuthError::InvalidToken),
    }
}

/// The view of a token, or the failure in its place.
pub open spec fn token_view(r: Result<String, AuthError>) -> Result<Seq<char>, AuthError> {
    match r {
        Ok(token) => Ok(token@),
        Err(e) => Err(e),
    }
}

/// The view of claim fields, where there are any.
pub open spec fn fields_view(f: Option<ClaimFields>) -> Option<ClaimFieldsView> {
    match f {
        Some(fields) => Some(fields@),
        None => None,
    }
}

/// The view of token sections, where there are any.
pub open spec fn sections_view(s: Option<TokenSections>) -> Option<TokenParts> {
    match s {
        Some(sections) => Some(sections@),
        None => None,
    }
}

/// A dot that no dot follows is the last dot.
proof fn lemma_last_dot_at(text: Seq<char>, at: int)
    requires
        0 <= at < text.len(),
        text[at] == '.',
        forall|k: int| at < k < text.len() ==> text[k] != '.',
    ensures
        last_dot(text) == at,
    decreases text.len(),
{
    if text.last() != '.' {
        lemma_last_dot_at(text.drop_last(), at);
    }
}

/// A text without a dot has no last dot.
proof fn lemma_no_dot(text: Seq<char>)
    requires
        forall|k: int| 0 <= k < text.len() ==> text[k] != '.',
    ensures
        last_dot(text) == -1,
    decreases text.len(),
{
    if text.len() > 0 {
        lemma_no_dot(text.drop_last());
    }
}

/// Finds the last dot among the first `len` characters of an ASCII text.
fn find_last_dot(text: &str, len: usize) -> (at: Option<usize>)
    requires
        text.is_ascii(),
        len <= text@.len(),
    ensures
        match at {
            Some(i) => i < len && last_dot(text@.subrange(0, len as int)) == i,
            None => last_dot(text@.subrange(0, len as int)) == -1,
        },
{
    let ghost head = text@.subrange(0, len as int);
    let mut i: usize = len;
    while i > 0
        invariant
            text.is_ascii(),
            len <= text@.len(),
            i <= len,
            head == text@.subrange(0, len as int),
            forall|k: int| i <= k < len ==> head[k] != '.',
        decreases i,
    {
        i = i - 1;
        let byte = text.get_ascii(i);
        if byte == 46 {
            proof {
                assert(text@[i as int] == '.');
                lemma_last_dot_at(head, i as int);
            }
            return Some(i);
        }
        proof {
            assert(text@[i as int] != '.');
        }
    }
    proof {
        lemma_no_dot(head);
    }
    None
}

/// Divides `token` into its sections: at its last dot, and at the last dot
/// before that.
pub fn split_token(token: &str) -> (sections: Option<TokenSections>)
    ensures
        sections_view(sections) == token_parts(token@),
{
    if !token.is_ascii() {
        return None;
    }
    let len = token.unicode_len();
    proof {
        assert(token@.subrange(0, len as int) =~= token@);
    }
    let cut = match find_last_dot(token, len) {
        Some(cut) => cut,
        None => { return None; },
    };
    let inner = match find_last_dot(token, cut) {
        Some(inner) => inner,
        None => { return None; },
    };
    let message = token.substring_ascii(0, cut);
    let payload = token.substring_ascii(inner + 1, cut);
    let signature = token.substring_ascii(cut + 1, len);
    proof {
        let whole = token@.subrange(0, cut as int);
        assert(whole.subrange(inner + 1, cut as int) =~= token@.subrange(inner + 1, cut as int));
    }
    Some(
        TokenSections {
            message: message.to_owned(),
            payload: payload.to_owned(),
            signature: signature.to_owned(),
        },
    )
}

/// Decides whether a token is to be believed from what reading its header
/// and checking its signature came to.
pub fn is_sealed(header: Option<bool>, signature: Option<bool>) -> (r: bool)
    ensures
        r == sealed(header, signature),
{
    match (header, signature) {
        (Some(true), Some(true)) => true,
        _ => false,
    }
}

/// Signs `claims` into a token under `secret`.
///
/// Signing does not fail; an error of the signer would be reported as
/// [`AuthError::InvalidToken`]. The token reads back, under the same secret,
/// as the claims it was signed from.
pub fn issue(claims: &Claims, secret: &str) -> (r: Result<String, AuthError>)
    ensures
        r is Ok,
        token_view(r) == issued(claims@, secret@),
        r matches Ok(token) ==> hs256_claims(token@, secret@) == Some(fields_of(claims@)),
{
    match encode_hs256(claims, secret) {
        Ok(token) => Ok(token),
        Err(_) => Err(AuthError::InvalidToken),
    }
}

/// Verifies `token` under `secret` and reads its claim fields; `None` for a
/// token that is malformed, signed otherwise or signed with another
/// algorithm. The payload is decoded only once the signature has held. The
/// expiry is read, not judged.
pub fn read(token: &str, secret: &str) -> (fields: Option<ClaimFields>)
    ensures
        fields_view(fields) == hs256_claims(token@, secret@),
{
    let sections = match split_token(token) {
        Some(sections) => sections,
        None => { return None; },
    };
    let header = match read_header(token) {
        Ok(hs256) => Some(hs256),
        Err(_) => None,
    };
    let signature = match check_signature(
        sections.signature.as_str(),
        sections.message.as_str(),
        secret,
    ) {
        Ok(holds) => Some(holds),
        Err(_) => None,
    };
    if !is_sealed(header, signature) {
        return None;
    }
    let bytes = match decode_base64url(sections.payload.as_str()) {
        Ok(bytes) => bytes,
        Err(_) => { return None; },
    };
    match parse_claim_fields(&bytes) {
        Ok(fields) => Some(fields),
        Err(_) => None,
    }
}

} // verus!
