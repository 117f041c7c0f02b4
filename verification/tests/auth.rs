use saas_rbac::auth::{caller_of, claims_of, current_user, issue_token, resolve_membership};
use saas_rbac::auth::{session_claims, validate_token, Claims, TokenFailure, SESSION_SECONDS};
use saas_rbac::entities::{Membership, Organization, Role, User};
use saas_rbac::error::{Status, StorageFailure};
use saas_rbac::id::Id;

const SECRET: &str = "a-secret-for-tests";

fn now() -> i64 {
    std::time::SystemTime::now().duration_since(std::time::UNIX_EPOCH).unwrap().as_secs() as i64
}

fn token_of(payload: serde_json::Map<String, serde_json::Value>, secret: &str) -> String {
    jsonwebtoken::encode(
        &jsonwebtoken::Header::default(),
        &payload,
        &jsonwebtoken::EncodingKey::from_secret(secret.as_bytes()),
    )
    .unwrap()
}

fn payload(sub: Option<serde_json::Value>, exp: Option<serde_json::Value>) -> serde_json::Map<String, serde_json::Value> {
    let mut map = serde_json::Map::new();
    if let Some(sub) = sub {
        map.insert("sub".to_string(), sub);
    }
    if let Some(exp) = exp {
        map.insert("exp".to_string(), exp);
    }
    map
}

fn refusal_of(token: &str) -> (Status, String) {
    let (status, body) = validate_token(token, SECRET).unwrap_err();
    (status, body.error)
}

fn claims_in(token: &str) -> serde_json::Value {
    jsonwebtoken::decode::<serde_json::Value>(
        token,
        &jsonwebtoken::DecodingKey::from_secret(SECRET.as_bytes()),
        &jsonwebtoken::Validation::default(),
    )
    .unwrap()
    .claims
}

fn user(id: Id) -> User {
    User {
        id,
        name: Some("Ann".to_string()),
        email: "ann@acme.com".to_string(),
        password_hash: None,
        avatar_url: None,
        created_at: 0,
        updated_at: 0,
    }
}

fn organization(id: Id) -> Organization {
    Organization {
        id,
        name: "Acme".to_string(),
        slug: "acme".to_string(),
        domain: None,
        should_attach_users_by_domain: false,
        avatar_url: None,
        owner_id: Id(1),
        created_at: 0,
        updated_at: 0,
    }
}

#[test]
fn session_lasts_seven_days() {
    assert_eq!(SESSION_SECONDS, 7 * 24 * 60 * 60);
    let claims = session_claims(&Id(0x550e8400_e29b_41d4_a716_446655440000), 1_700_000_000);
    assert_eq!(claims.sub, "550e8400-e29b-41d4-a716-446655440000");
    assert_eq!(claims.exp, 1_700_604_800);
    let early = session_claims(&Id(1), i64::MIN);
    assert_eq!(early.exp, i64::MIN + 604_800);
    let late = session_claims(&Id(1), i64::MAX - 604_800);
    assert_eq!(late.exp, i64::MAX);
}

#[test]
fn issued_session_resolves_to_its_user() {
    let id = Id(uuid::Uuid::new_v4().as_u128());
    let claims = session_claims(&id, now());
    let token = issue_token(&claims, SECRET).unwrap();
    assert_eq!(token.split('.').count(), 3);
    assert_ne!(token, claims.sub);
    assert_eq!(validate_token(&token, SECRET).unwrap(), id);
    let decoded = claims_in(&token);
    assert_eq!(decoded.get("sub").unwrap().as_str(), Some(id.to_string().as_str()));
    assert_eq!(decoded.get("exp").unwrap().as_i64(), Some(claims.exp));
}

#[test]
fn signing_is_a_function_of_claims_and_secret() {
    let claims = Claims { sub: "550e8400-e29b-41d4-a716-446655440000".to_string(), exp: 4_000_000_000 };
    let first = issue_token(&claims, SECRET).unwrap();
    let second = issue_token(&claims, SECRET).unwrap();
    assert_eq!(first, second);
    let other_secret = issue_token(&claims, "another").unwrap();
    assert_ne!(first, other_secret);
    let other_claims = issue_token(&Claims { exp: 4_000_000_001, ..claims.clone() }, SECRET).unwrap();
    assert_ne!(first, other_claims);
    // The token is the one that the signing crate makes of the same claims.
    let same = token_of(
        payload(Some(serde_json::Value::from(claims.sub.as_str())), Some(serde_json::Value::from(claims.exp))),
        SECRET,
    );
    assert_eq!(first, same);
}

#[test]
fn token_signed_with_another_secret_is_invalid() {
    let claims = session_claims(&Id(5), now());
    let token = issue_token(&claims, "another-secret").unwrap();
    let (status, body) = validate_token(&token, SECRET).unwrap_err();
    assert_eq!(status, Status::Unauthorized);
    assert_eq!(body.error, "Invalid token");
}

#[test]
fn expired_token_is_reported_as_expired() {
    let claims = Claims { sub: Id(5).to_string(), exp: now() - 3600 };
    let token = issue_token(&claims, SECRET).unwrap();
    let (status, body) = validate_token(&token, SECRET).unwrap_err();
    assert_eq!(status, Status::Unauthorized);
    assert_eq!(body.error, "Token has expired");
}

#[test]
fn malformed_tokens_are_invalid() {
    for token in ["", "a.jwt.token", "not a token", "a.b", "a.b.c.d"] {
        let (status, body) = validate_token(token, SECRET).unwrap_err();
        assert_eq!(status, Status::Unauthorized);
        assert_eq!(body.error, "Invalid token");
    }
    let good = issue_token(&session_claims(&Id(5), now()), SECRET).unwrap();
    let mut tampered = good.clone();
    let last = tampered.pop().unwrap();
    tampered.push(if last == 'A' { 'B' } else { 'A' });
    assert_eq!(refusal_of(&tampered), (Status::Unauthorized, "Invalid token".to_string()));
    assert_eq!(validate_token(&good, SECRET).unwrap(), Id(5));
}

#[test]
fn token_without_the_two_claims_is_invalid() {
    let invalid = (Status::Unauthorized, "Invalid token".to_string());
    let later = serde_json::Value::from(now() + 3600);
    let subject = serde_json::Value::from(Id(5).to_string());
    let no_subject = token_of(payload(None, Some(later.clone())), SECRET);
    assert_eq!(refusal_of(&no_subject), invalid);
    let numeric_subject = token_of(payload(Some(serde_json::Value::from(5)), Some(later.clone())), SECRET);
    assert_eq!(refusal_of(&numeric_subject), invalid);
    let no_expiry = token_of(payload(Some(subject.clone()), None), SECRET);
    assert_eq!(refusal_of(&no_expiry), invalid);
    let huge_expiry = token_of(payload(Some(subject.clone()), Some(serde_json::Value::from(u64::MAX))), SECRET);
    assert_eq!(refusal_of(&huge_expiry), invalid);
    let complete = token_of(payload(Some(subject), Some(later)), SECRET);
    assert_eq!(validate_token(&complete, SECRET).unwrap(), Id(5));
}

#[test]
fn token_whose_subject_is_no_identifier_is_refused() {
    let token = token_of(
        payload(Some(serde_json::Value::from("ann@acme.com")), Some(serde_json::Value::from(now() + 3600))),
        SECRET,
    );
    let (status, body) = validate_token(&token, SECRET).unwrap_err();
    assert_eq!(status, Status::Unauthorized);
    assert_eq!(body.error, "Invalid token subject");
}

#[test]
fn caller_of_each_outcome() {
    let id = Id(0x550e8400_e29b_41d4_a716_446655440000);
    let good = Claims { sub: "550e8400-e29b-41d4-a716-446655440000".to_string(), exp: 0 };
    assert_eq!(caller_of(Ok(good)).unwrap(), id);
    let simple = Claims { sub: "550e8400e29b41d4a716446655440000".to_string(), exp: i64::MAX };
    assert_eq!(caller_of(Ok(simple)).unwrap(), id);
    let bad = Claims { sub: "".to_string(), exp: 0 };
    let (status, body) = caller_of(Ok(bad)).unwrap_err();
    assert_eq!((status, body.error.as_str()), (Status::Unauthorized, "Invalid token subject"));
    let (status, body) = caller_of(Err(TokenFailure::Expired)).unwrap_err();
    assert_eq!((status, body.error.as_str()), (Status::Unauthorized, "Token has expired"));
    let (status, body) = caller_of(Err(TokenFailure::Invalid)).unwrap_err();
    assert_eq!((status, body.error.as_str()), (Status::Unauthorized, "Invalid token"));
}

#[test]
fn current_user_of_each_lookup() {
    let found = current_user(&Id(9), Ok(Some(user(Id(9))))).unwrap();
    assert_eq!(found.0.id, Id(9));
    assert_eq!(found.0.email, "ann@acme.com");
    let (status, body) = current_user(&Id(9), Ok(None)).unwrap_err();
    assert_eq!((status, body.error.as_str()), (Status::Unauthorized, "User not found"));
    let (status, body) = current_user(&Id(9), Ok(Some(user(Id(10))))).unwrap_err();
    assert_eq!((status, body.error.as_str()), (Status::Unauthorized, "User not found"));
    let (status, body) = current_user(&Id(9), Err(StorageFailure)).unwrap_err();
    assert_eq!((status, body.error.as_str()), (Status::InternalServerError, "Internal server error"));
}

#[test]
fn membership_of_each_lookup() {
    let caller = Id(9);
    let org = organization(Id(100));
    let membership = Membership { id: Id(50), role: Role::Billing, organization_id: Id(100), user_id: caller };
    let (resolved, resolved_org) = resolve_membership(&caller, Ok(Some((membership, Some(org.clone()))))).unwrap();
    assert_eq!(resolved.role, Role::Billing);
    assert_eq!(resolved.id, Id(50));
    assert_eq!(resolved_org.id, Id(100));
    assert_eq!(resolved_org.slug, "acme");

    let (status, body) = resolve_membership(&caller, Ok(None)).unwrap_err();
    assert_eq!((status, body.error.as_str()), (Status::Forbidden, "You're not a member of this organization."));

    let of_another = Membership { user_id: Id(10), ..membership };
    let (status, body) = resolve_membership(&caller, Ok(Some((of_another, Some(org.clone()))))).unwrap_err();
    assert_eq!((status, body.error.as_str()), (Status::Forbidden, "You're not a member of this organization."));

    let elsewhere = Membership { organization_id: Id(101), ..membership };
    let (status, _) = resolve_membership(&caller, Ok(Some((elsewhere, Some(org))))).unwrap_err();
    assert_eq!(status, Status::Forbidden);

    let (status, body) = resolve_membership(&caller, Ok(Some((membership, None)))).unwrap_err();
    assert_eq!((status, body.error.as_str()), (Status::Forbidden, "You're not a member of this organization."));

    let (status, body) = resolve_membership(&caller, Err(StorageFailure)).unwrap_err();
    assert_eq!((status, body.error.as_str()), (Status::InternalServerError, "Internal Server Error"));
}

#[test]
fn claims_of_each_payload() {
    let text = |value: &str| Some(serde_json::Value::from(value));
    let number = |value: i64| Some(serde_json::Value::from(value));
    let object = |sub, exp| Ok(serde_json::Value::Object(payload(sub, exp)));

    let claims = claims_of(object(text("someone"), number(17))).unwrap();
    assert_eq!((claims.sub.as_str(), claims.exp), ("someone", 17));
    let claims = claims_of(object(text(""), number(i64::MIN))).unwrap();
    assert_eq!((claims.sub.as_str(), claims.exp), ("", i64::MIN));

    assert_eq!(claims_of(object(None, number(17))).unwrap_err(), TokenFailure::Invalid);
    assert_eq!(claims_of(object(text("someone"), None)).unwrap_err(), TokenFailure::Invalid);
    assert_eq!(claims_of(object(number(5), number(17))).unwrap_err(), TokenFailure::Invalid);
    assert_eq!(claims_of(object(text("someone"), text("17"))).unwrap_err(), TokenFailure::Invalid);
    assert_eq!(
        claims_of(object(text("someone"), Some(serde_json::Value::from(u64::MAX)))).unwrap_err(),
        TokenFailure::Invalid
    );
    assert_eq!(
        claims_of(object(text("someone"), Some(serde_json::Value::from(1.5)))).unwrap_err(),
        TokenFailure::Invalid
    );
    assert_eq!(claims_of(Ok(serde_json::Value::Null)).unwrap_err(), TokenFailure::Invalid);
    assert_eq!(claims_of(Ok(serde_json::Value::from("sub"))).unwrap_err(), TokenFailure::Invalid);
    assert_eq!(
        claims_of(Ok(serde_json::Value::Array(vec![serde_json::Value::from("someone")]))).unwrap_err(),
        TokenFailure::Invalid
    );

    assert_eq!(claims_of(Err(TokenFailure::Expired)).unwrap_err(), TokenFailure::Expired);
    assert_eq!(claims_of(Err(TokenFailure::Invalid)).unwrap_err(), TokenFailure::Invalid);
}
