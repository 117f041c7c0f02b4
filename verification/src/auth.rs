//! From a bearer token to a caller: the claims that a token carries, how they
//! are read and checked, and how a session is issued.

use vstd::prelude::*;
use crate::entities::{Membership, Organization, User};
use crate::error::{refused, ErrorResponse, Status, StorageFailure};
use crate::id::Id;

verus! {

/// How long a session lasts, in seconds: seven days.
pub const SESSION_SECONDS: i64 = 604800;

/// What a session token states: the user it was issued to, as the text of
/// the user's identifier, and the second after which it no longer holds.
#[derive(Clone, Debug)]
pub struct Claims {
    pub sub: String,
    pub exp: i64,
}

/// The user on whose behalf a request is made.
#[derive(Clone, Debug)]
pub struct CurrentUser(pub User);

/// Why a token was not accepted. Both are failures to authenticate; they
/// differ in the message only.
#[derive(Clone, Copy, Debug, PartialEq, Eq, Structural)]
pub enum TokenFailure {
    Expired,
    Invalid,
}

/// A JSON value of `serde_json`: the payload of a token, carried from the
/// call that decodes it to the calls that read its members. What is known of
/// it is what [`json_texts`] and [`json_integers`] name.
#[verifier::external_type_specification]
#[verifier::external_body]
pub struct ExJsonValue(serde_json::Value);

/// The members of a JSON object that are strings, by name: what
/// `serde_json::Value::get` and `as_str` find in it. Empty for a value that
/// is no object.
pub uninterp spec fn json_texts(payload: serde_json::Value) -> Map<Seq<char>, Seq<char>>;

/// The members of a JSON object that are integers and fit 64 bits with a
/// sign, by name: what `serde_json::Value::get` and `as_i64` find in it.
pub uninterp spec fn json_integers(payload: serde_json::Value) -> Map<Seq<char>, i64>;

/// The string members of the payload that `jsonwebtoken::decode` reads from
/// a token. The payload is the part of the token between its two dots,
/// whatever the clock says.
pub uninterp spec fn payload_texts(token: Seq<char>) -> Map<Seq<char>, Seq<char>>;

/// The integer members of the payload that `jsonwebtoken::decode` reads from
/// a token.
pub uninterp spec fn payload_integers(token: Seq<char>) -> Map<Seq<char>, i64>;

/// Whether `jsonwebtoken` finds that a token is signed with HS256 under the
/// HMAC key of `secret`: whether the token has the shape of a token and its
/// signature is the one that the key gives.
pub uninterp spec fn signature_verifies(token: Seq<char>, secret: Seq<char>) -> bool;

/// The token that `jsonwebtoken::encode` makes of the claims `sub` and `exp`
/// under the default header and the HMAC key of `secret`, or `None` where
/// it reports an error.
pub uninterp spec fn signed_token(sub: Seq<char>, exp: int, secret: Seq<char>) -> Option<
    Seq<char>,
>;

/// Calls `jsonwebtoken::decode` with the HMAC key of `secret` and the default
/// validation, and tells an error of the kind `ExpiredSignature` from the
/// others. The crate checks the signature first, reads the payload next and
/// holds the expiry against the clock last. Whether a token is accepted thus
/// depends on the time of the call and is not claimed; what is claimed holds
/// of every outcome: a payload is handed out, and an expiry reported, only
/// for a token whose signature verifies, and the payload is the one that the
/// token carries. The crate gives up where the clock stands before the year
/// 1970.
#[verifier::external_body]
fn decode_payload(token: &str, secret: &str) -> (decoded: Result<serde_json::Value, TokenFailure>)
    ensures
        decoded matches Ok(payload) ==> {
            &&& signature_verifies(token@, secret@)
            &&& json_texts(payload) == payload_texts(token@)
            &&& json_integers(payload) == payload_integers(token@)
        },
        decoded matches Err(TokenFailure::Expired) ==> signature_verifies(token@, secret@),
{
    let key = jsonwebtoken::DecodingKey::from_secret(secret.as_bytes());
    let validation = jsonwebtoken::Validation::default();
    match jsonwebtoken::decode::<serde_json::Value>(token, &key, &validation) {
        Ok(data) => Ok(data.claims),
        Err(error) => match error.kind() {
            jsonwebtoken::errors::ErrorKind::ExpiredSignature => Err(TokenFailure::Expired),
            _ => Err(TokenFailure::Invalid),
        },
    }
}

/// Reads a member of a JSON object with `serde_json::Value::get` and
/// `as_str`: the text, where the member is there and is a string.
#[verifier::external_body]
fn text_claim(payload: &serde_json::Value, name: &str) -> (text: Option<String>)
    ensures
        match text {
            Some(found) => json_texts(*payload).contains_key(name@) && json_texts(
                *payload,
            )[name@] == found@,
            None => !json_texts(*payload).contains_key(name@),
        },
{
    match payload.get(name).and_then(serde_json::Value::as_str) {
        Some(text) => Some(text.to_owned()),
        None => None,
    }
}

/// Reads a member of a JSON object with `serde_json::Value::get` and
/// `as_i64`: the number, where the member is there and is an integer that
/// fits.
#[verifier::external_body]
fn integer_claim(payload: &serde_json::Value, name: &str) -> (number: Option<i64>)
    ensures
        match number {
            Some(found) => json_integers(*payload).contains_key(name@) && json_integers(
                *payload,
            )[name@] == found,
            None => !json_integers(*payload).contains_key(name@),
        },
{
    payload.get(name).and_then(serde_json::Value::as_i64)
}

/// Calls `jsonwebtoken::encode` with the default header, a JSON object that
/// holds the two claims under the names `sub` and `exp`, and the HMAC key of
/// `secret`. The token is a function of these three values; the contract
/// names it.
#[verifier::external_body]
fn sign_claims(claims: &Claims, secret: &str) -> (token: Option<String>)
    ensures
        match token {
            Some(text) => signed_token(claims.sub@, claims.exp as int, secret@) == Some(text@),
            None => signed_token(claims.sub@, claims.exp as int, secret@) is None,
        },
{
    let mut payload = serde_json::Map::new();
    payload.insert("sub".to_owned(), serde_json::Value::from(claims.sub.as_str()));
    payload.insert("exp".to_owned(), serde_json::Value::from(claims.exp));
    jsonwebtoken::encode(
        &jsonwebtoken::Header::default(),
        &payload,
        &jsonwebtoken::EncodingKey::from_secret(secret.as_bytes()),
    ).ok()
}

/// The subject that a token states: the string member `sub` of its payload.
pub open spec fn token_subject(token: Seq<char>) -> Option<Seq<char>> {
    if payload_texts(token).contains_key("sub"@) {
        Some(payload_texts(token)["sub"@])
    } else {
        None
    }
}

/// The expiry that a token states: the integer member `exp` of its payload.
pub open spec fn token_expiry(token: Seq<char>) -> Option<i64> {
    if payload_integers(token).contains_key("exp"@) {
        Some(payload_integers(token)["exp"@])
    } else {
        None
    }
}

/// Whether claims are the ones that a token states.
pub open spec fn states(token: Seq<char>, claims: Claims) -> bool {
    token_subject(token) == Some(claims.sub@) && token_expiry(token) == Some(claims.exp)
}

/// The claims in what the decoder made of a token, or why there are none.
pub open spec fn claims_outcome(decoded: Result<serde_json::Value, TokenFailure>) -> Result<
    (Seq<char>, i64),
    TokenFailure,
> {
    match decoded {
        Ok(payload) => if json_texts(payload).contains_key("sub"@) && json_integers(
            payload,
        ).contains_key("exp"@) {
            Ok((json_texts(payload)["sub"@], json_integers(payload)["exp"@]))
        } else {
            Err(TokenFailure::Invalid)
        },
        Err(failure) => Err(failure),
    }
}

/// Reads the claims from what the decoder made of a token.
///
/// A payload gives claims exactly when it holds a subject that is a string
/// and an expiry that is an integer, and the claims are these two; a payload
/// that lacks either is not valid. A failure of the decoder is passed on.
pub fn claims_of(decoded: Result<serde_json::Value, TokenFailure>) -> (claims: Result<
    Claims,
    TokenFailure,
>)
    ensures
        match claims_outcome(decoded) {
            Ok(stated) => claims matches Ok(found) && found.sub@ == stated.0 && found.exp
                == stated.1,
            Err(failure) => claims == Err::<Claims, TokenFailure>(failure),
        },
{
    match decoded {
        Ok(payload) => {
            match (text_claim(&payload, "sub"), integer_claim(&payload, "exp")) {
                (Some(sub), Some(exp)) => Ok(Claims { sub, exp }),
                _ => Err(TokenFailure::Invalid),
            }
        },
        Err(failure) => Err(failure),
    }
}

/// Checks a token against `jwt_secret` and the clock and reads its claims.
///
/// A token is accepted when its signature verifies, it has not expired, and
/// it carries a subject that is a string and an expiry that is an integer. A
/// token that has expired is reported as `Expired`, every other failure as
/// `Invalid`.
///
/// Whether a token has expired depends on the clock. Whatever the clock
/// says, claims are handed out only for a token whose signature verifies,
/// and they are the claims that the token states; a token is reported as
/// expired only where its signature verifies; and a token whose signature
/// does not verify is `Invalid`. [`claims_of`] states the outcome for each
/// result of the decoder.
fn decode_claims(token: &str, jwt_secret: &str) -> (decoded: Result<Claims, TokenFailure>)
    ensures
        decoded matches Ok(claims) ==> signature_verifies(token@, jwt_secret@) && states(
            token@,
            claims,
        ),
        decoded matches Err(TokenFailure::Expired) ==> signature_verifies(token@, jwt_secret@),
        !signature_verifies(token@, jwt_secret@) ==> decoded == Err::<Claims, TokenFailure>(
            TokenFailure::Invalid,
        ),
{
    claims_of(decode_payload(token, jwt_secret))
}

/// The message for a token that was not accepted.
pub open spec fn token_failure_message(failure: TokenFailure) -> Seq<char> {
    match failure {
        TokenFailure::Expired => "Token has expired"@,
        TokenFailure::Invalid => "Invalid token"@,
    }
}

/// The caller that a checked token names, or the message of the refusal: the
/// subject of accepted claims has to be the text of an identifier.
pub open spec fn caller_outcome(decoded: Result<Claims, TokenFailure>) -> Result<Id, Seq<char>> {
    match decoded {
        Ok(claims) => match Id::spec_parse(claims.sub@) {
            Some(id) => Ok(id),
            None => Err("Invalid token subject"@),
        },
        Err(failure) => Err(token_failure_message(failure)),
    }
}

/// Whether a message is one of those with which a token is refused.
pub open spec fn is_token_refusal(message: Seq<char>) -> bool {
    ||| message == "Token has expired"@
    ||| message == "Invalid token"@
    ||| message == "Invalid token subject"@
}

/// Turns the outcome of checking a token into the caller's identifier.
///
/// Every failure is a failure to authenticate: the status is `Unauthorized`,
/// and the message says whether the token had expired, was otherwise not
/// valid, or named a subject that is no identifier.
pub fn caller_of(decoded: Result<Claims, TokenFailure>) -> (caller: Result<
    Id,
    (Status, ErrorResponse),
>)
    ensures
        match caller_outcome(decoded) {
            Ok(id) => caller matches Ok(found) && found == id,
            Err(message) => refused(caller, Status::Unauthorized, message),
        },
{
    match decoded {
        Ok(claims) => match Id::parse(claims.sub.as_str()) {
            Some(id) => Ok(id),
            None => Err(ErrorResponse::new(Status::Unauthorized, "Invalid token subject")),
        },
        Err(TokenFailure::Expired) => Err(
            ErrorResponse::new(Status::Unauthorized, "Token has expired"),
        ),
        Err(TokenFailure::Invalid) => Err(ErrorResponse::new(Status::Unauthorized, "Invalid token")),
    }
}

/// Whether a refusal is one that a token can meet with, and for the reason
/// that its message gives: a token is reported as expired only where its
/// signature verifies, and its subject as no identifier only where the
/// signature verifies and the subject that the token states denotes none.
pub open spec fn is_refusal_of(
    token: Seq<char>,
    secret: Seq<char>,
    refusal: (Status, ErrorResponse),
) -> bool {
    &&& refusal.0 == Status::Unauthorized
    &&& {
        ||| refusal.1.error@ == "Invalid token"@
        ||| (refusal.1.error@ == "Token has expired"@ && signature_verifies(token, secret))
        ||| (token_subject(token) matches Some(subject) && Id::spec_parse(subject).is_none()
            && refusal.1.error@ == "Invalid token subject"@ && signature_verifies(token, secret)
            && token_expiry(token).is_some())
    }
}

/// Resolves a bearer token to the identifier of the caller.
///
/// Whether a token has expired depends on the clock, so the contract states
/// what holds of every outcome. A caller is resolved only from a token whose
/// signature verifies under `jwt_secret` and that states an expiry and a
/// subject, and the caller is the identifier that the subject denotes. A
/// refusal is a failure to authenticate, for the reason that its message
/// gives. A token whose signature does not verify is refused as not valid,
/// and so is never resolved. [`claims_of`] and [`caller_of`] state the
/// outcome for each result of the decoder: a token is resolved exactly when
/// the decoder accepts it, its payload holds the two claims and its subject
/// denotes an identifier.
pub fn validate_token(token: &str, jwt_secret: &str) -> (caller: Result<
    Id,
    (Status, ErrorResponse),
>)
    ensures
        match caller {
            Ok(id) => {
                &&& signature_verifies(token@, jwt_secret@)
                &&& token_expiry(token@).is_some()
                &&& token_subject(token@) matches Some(subject)
                &&& Id::spec_parse(subject) == Some(id)
            },
            Err(refusal) => is_refusal_of(token@, jwt_secret@, refusal) && is_token_refusal(
                refusal.1.error@,
            ),
        },
        !signature_verifies(token@, jwt_secret@) ==> refused(
            caller,
            Status::Unauthorized,
            "Invalid token"@,
        ),
{
    caller_of(decode_claims(token, jwt_secret))
}

/// Turns the outcome of looking the caller up into the current user: a
/// caller for whom storage holds no user record of the caller's own is not
/// authenticated, and a failed lookup is a failure of the service.
pub fn current_user(caller_id: &Id, found: Result<Option<User>, StorageFailure>) -> (user: Result<
    CurrentUser,
    (Status, ErrorResponse),
>)
    ensures
        match found {
            Ok(Some(record)) => if record.id == *caller_id {
                user matches Ok(current) && current.0 == record
            } else {
                refused(user, Status::Unauthorized, "User not found"@)
            },
            Ok(None) => refused(user, Status::Unauthorized, "User not found"@),
            Err(_) => refused(user, Status::InternalServerError, "Internal server error"@),
        },
{
    match found {
        Ok(Some(record)) => {
            if record.id == *caller_id {
                Ok(CurrentUser(record))
            } else {
                Err(ErrorResponse::new(Status::Unauthorized, "User not found"))
            }
        },
        Ok(None) => Err(ErrorResponse::new(Status::Unauthorized, "User not found")),
        Err(_) => Err(ErrorResponse::new(Status::InternalServerError, "Internal server error")),
    }
}

/// Whether a membership links `caller_id` to `organization`.
pub open spec fn is_membership_of(
    membership: Membership,
    caller_id: Id,
    organization: Organization,
) -> bool {
    membership.user_id == caller_id && membership.organization_id == organization.id
}

/// The membership and the organization in what storage holds, where the row
/// came with its organization and links `caller_id` to it.
pub open spec fn membership_found(
    caller_id: Id,
    found: Result<Option<(Membership, Option<Organization>)>, StorageFailure>,
) -> Option<(Membership, Organization)> {
    match found {
        Ok(Some((membership, Some(organization)))) => if is_membership_of(
            membership,
            caller_id,
            organization,
        ) {
            Some((membership, organization))
        } else {
            None
        },
        _ => None,
    }
}

/// Turns the outcome of looking a membership up into the caller's membership
/// of an organization, whose role is then used for access checks.
///
/// A caller for whom storage holds no row that links the caller to the
/// organization is forbidden, and so is one whose row came without its
/// organization; a failed lookup is a failure of the service.
pub fn resolve_membership(
    caller_id: &Id,
    found: Result<Option<(Membership, Option<Organization>)>, StorageFailure>,
) -> (resolved: Result<(Membership, Organization), (Status, ErrorResponse)>)
    ensures
        match found {
            Ok(_) => match membership_found(*caller_id, found) {
                Some(row) => resolved matches Ok(pair) && pair == row,
                None => refused(
                    resolved,
                    Status::Forbidden,
                    "You're not a member of this organization."@,
                ),
            },
            Err(_) => refused(resolved, Status::InternalServerError, "Internal Server Error"@),
        },
{
    match found {
        Ok(Some((membership, Some(organization)))) => {
            if membership.user_id == *caller_id && membership.organization_id == organization.id {
                Ok((membership, organization))
            } else {
                Err(
                    ErrorResponse::new(
                        Status::Forbidden,
                        "You're not a member of this organization.",
                    ),
                )
            }
        },
        Ok(_) => Err(
            ErrorResponse::new(Status::Forbidden, "You're not a member of this organization."),
        ),
        Err(_) => Err(ErrorResponse::internal_error()),
    }
}

/// The claims of a session issued at second `now` to `user_id`: the subject
/// is the text of the identifier and the session ends seven days later.
/// Checking these claims gives `user_id` back.
pub fn session_claims(user_id: &Id, now: i64) -> (claims: Claims)
    requires
        now + SESSION_SECONDS <= i64::MAX,
    ensures
        claims.sub@ == user_id.spec_text(),
        claims.exp == now + SESSION_SECONDS,
        caller_outcome(Ok(claims)) == Ok::<Id, Seq<char>>(*user_id),
{
    Claims { sub: user_id.to_string(), exp: now + SESSION_SECONDS }
}

/// Signs claims with `jwt_secret`. Where signing fails the refusal is a
/// failure of the service.
pub fn issue_token(claims: &Claims, jwt_secret: &str) -> (token: Result<
    String,
    (Status, ErrorResponse),
>)
    ensures
        match signed_token(claims.sub@, claims.exp as int, jwt_secret@) {
            Some(text) => token matches Ok(signed) && signed@ == text,
            None => refused(token, Status::InternalServerError, "Internal server error"@),
        },
{
    match sign_claims(claims, jwt_secret) {
        Some(signed) => Ok(signed),
        None => Err(ErrorResponse::new(Status::InternalServerError, "Internal server error")),
    }
}

} // verus!
