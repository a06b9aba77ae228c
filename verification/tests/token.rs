use auth_core::token::{
    decode_jwt, decode_jwt_at, encode_jwt, issue_at, signing_result, validate_opened, Claims,
    DecodeFault, RawClaims, TokenConfig, TokenError, DEFAULT_LEEWAY_SECS, DEFAULT_VALIDITY_SECS,
};
use jsonwebtoken::{encode, Algorithm, EncodingKey, Header};
use serde_json::Value;
use std::time::{SystemTime, UNIX_EPOCH};

const DAY: i64 = 86_400;

fn config(secret: &str) -> TokenConfig {
    TokenConfig::new(Some(secret.to_string())).unwrap()
}

fn clock() -> i64 {
    SystemTime::now().duration_since(UNIX_EPOCH).unwrap().as_secs() as i64
}

fn raw(sub: Option<&str>, iat: Option<u64>, exp: Option<u64>) -> RawClaims {
    RawClaims { sub: sub.map(str::to_string), iat, exp }
}

fn signed_with(algorithm: Algorithm, secret: &str, claims: &[(&str, Value)]) -> String {
    let mut object = serde_json::Map::new();
    for (name, value) in claims {
        object.insert(name.to_string(), value.clone());
    }
    encode(&Header::new(algorithm), &object, &EncodingKey::from_secret(secret.as_bytes())).unwrap()
}

fn outcome(r: Result<Claims, TokenError>) -> Result<(String, usize, usize), TokenError> {
    r.map(|c| (c.sub, c.iat, c.exp))
}

#[test]
fn default_windows_are_a_day_and_a_minute() {
    assert_eq!(DEFAULT_VALIDITY_SECS, 86_400);
    assert_eq!(DEFAULT_LEEWAY_SECS, 60);
    let cfg = config("s3cret");
    assert_eq!(cfg.validity_secs(), 86_400);
    assert_eq!(cfg.leeway_secs(), 60);
}

#[test]
fn config_without_secret_is_a_config_error() {
    assert!(matches!(TokenConfig::new(None), Err(TokenError::Config)));
    assert!(TokenConfig::new(Some(String::new())).is_ok());
}

#[test]
fn config_with_empty_validity_is_a_config_error() {
    assert!(matches!(config("s").with_windows(0, 60), Err(TokenError::Config)));
    let cfg = config("s").with_windows(10, 0).unwrap();
    assert_eq!(cfg.validity_secs(), 10);
    assert_eq!(cfg.leeway_secs(), 0);
}

#[test]
fn issued_claims_expire_one_window_after_issue() {
    let c = Claims::issued("alice".to_string(), 1_700_000_000, 86_400).unwrap();
    assert_eq!(c.sub, "alice");
    assert_eq!(c.iat, 1_700_000_000);
    assert_eq!(c.exp, 1_700_086_400);
    let zero = Claims::issued(String::new(), 0, 1).unwrap();
    assert_eq!((zero.iat, zero.exp), (0, 1));
}

#[test]
fn claims_cannot_be_issued_outside_the_representable_instants() {
    assert!(Claims::issued("alice".to_string(), -1, 86_400).is_none());
    assert!(Claims::issued("alice".to_string(), i64::MIN, 86_400).is_none());
    assert!(Claims::issued("alice".to_string(), i64::MAX, u64::MAX).is_none());
    assert!(Claims::issued("alice".to_string(), 1, u64::MAX).is_none());
    assert!(Claims::issued("alice".to_string(), 0, u64::MAX).is_some() == (usize::MAX as u64 == u64::MAX));
}

#[test]
fn expiry_is_strictly_after_exp_plus_leeway() {
    let c = Claims { sub: "alice".to_string(), iat: 1_000, exp: 2_000 };
    assert!(!c.is_expired_at(1_000, 60));
    assert!(!c.is_expired_at(2_000, 60));
    assert!(!c.is_expired_at(2_059, 60));
    assert!(!c.is_expired_at(2_060, 60));
    assert!(c.is_expired_at(2_061, 60));
    assert!(c.is_expired_at(i64::MAX, 60));
    assert!(!c.is_expired_at(2_000, 0));
    assert!(c.is_expired_at(2_001, 0));
    assert!(!c.is_expired_at(-5, 0));
    assert!(!c.is_expired_at(i64::MAX, u64::MAX));
}

#[test]
fn validate_opened_returns_live_claims() {
    let r = validate_opened(Ok(raw(Some("alice"), Some(1_000), Some(87_400))), 87_460, 60);
    assert_eq!(outcome(r), Ok(("alice".to_string(), 1_000, 87_400)));
}

#[test]
fn validate_opened_expires_past_the_leeway() {
    let r = validate_opened(Ok(raw(Some("alice"), Some(1_000), Some(87_400))), 87_461, 60);
    assert_eq!(outcome(r), Err(TokenError::Expired));
}

#[test]
fn validate_opened_keeps_the_class_of_a_refusal() {
    let r = validate_opened(Err(DecodeFault::SignatureMismatch), 0, 60);
    assert_eq!(outcome(r), Err(TokenError::InvalidSignature));
    let r = validate_opened(Err(DecodeFault::Rejected), 0, 60);
    assert_eq!(outcome(r), Err(TokenError::Malformed));
    let r = validate_opened(Err(DecodeFault::SignatureMismatch), i64::MAX, 0);
    assert_eq!(outcome(r), Err(TokenError::InvalidSignature));
}

#[test]
fn validate_opened_requires_all_three_claims() {
    let r = validate_opened(Ok(raw(None, Some(1), Some(2))), 0, 60);
    assert_eq!(outcome(r), Err(TokenError::Malformed));
    let r = validate_opened(Ok(raw(Some("a"), None, Some(2))), 0, 60);
    assert_eq!(outcome(r), Err(TokenError::Malformed));
    let r = validate_opened(Ok(raw(Some("a"), Some(1), None)), 0, 60);
    assert_eq!(outcome(r), Err(TokenError::Malformed));
    let r = validate_opened(Ok(raw(None, None, Some(2))), i64::MAX, 60);
    assert_eq!(outcome(r), Err(TokenError::Malformed));
}

#[test]
fn signing_result_maps_the_signer() {
    assert_eq!(signing_result(Some("a.b.c".to_string())), Ok("a.b.c".to_string()));
    assert_eq!(signing_result(None), Err(TokenError::Issuance));
}

#[test]
fn issued_token_has_three_url_safe_parts_and_an_hs256_header() {
    let token = issue_at("alice".to_string(), 1_700_000_000, &config("s3cret")).unwrap();
    let parts: Vec<&str> = token.split('.').collect();
    assert_eq!(parts.len(), 3);
    assert_eq!(parts[0], "eyJ0eXAiOiJKV1QiLCJhbGciOiJIUzI1NiJ9");
    assert!(token.chars().all(|c| c.is_ascii_alphanumeric() || c == '-' || c == '_' || c == '.'));
    assert_eq!(parts[2].len(), 43);
}

#[test]
fn issuance_is_determined_by_claims_and_secret() {
    let a = issue_at("alice".to_string(), 1_700_000_000, &config("s3cret")).unwrap();
    let b = issue_at("alice".to_string(), 1_700_000_000, &config("s3cret")).unwrap();
    assert_eq!(a, b);
    assert_ne!(a, issue_at("bob".to_string(), 1_700_000_000, &config("s3cret")).unwrap());
    assert_ne!(a, issue_at("alice".to_string(), 1_700_000_001, &config("s3cret")).unwrap());
    assert_ne!(a, issue_at("alice".to_string(), 1_700_000_000, &config("other")).unwrap());
}

#[test]
fn issuance_before_the_epoch_is_an_issuance_error() {
    assert_eq!(issue_at("alice".to_string(), -1, &config("s3cret")), Err(TokenError::Issuance));
}

#[test]
fn token_validates_to_its_subject_right_after_issue() {
    let cfg = config("s3cret");
    let token = issue_at("alice".to_string(), 1_700_000_000, &cfg).unwrap();
    let claims = decode_jwt_at(&token, 1_700_000_000, &cfg).unwrap();
    assert_eq!(claims.sub, "alice");
    assert_eq!(claims.iat, 1_700_000_000);
    assert_eq!(claims.exp, 1_700_000_000 + 86_400);
}

#[test]
fn encode_then_decode_gives_the_subject_back() {
    let cfg = config("s3cret");
    let before = clock();
    let token = encode_jwt("alice".to_string(), &cfg).unwrap();
    let claims = decode_jwt(&token, &cfg).unwrap();
    let after = clock();
    assert_eq!(claims.sub, "alice");
    assert!(before as usize <= claims.iat && claims.iat <= after as usize);
    assert_eq!(claims.exp, claims.iat + 86_400);
}

#[test]
fn subjects_with_quotes_and_other_scripts_round_trip() {
    let cfg = config("s3cret");
    for subject in ["", "a\"b\\c", "älice", "名前", "line\nbreak", "a.b.c"] {
        let token = issue_at(subject.to_string(), 1_700_000_000, &cfg).unwrap();
        assert_eq!(decode_jwt_at(&token, 1_700_000_000, &cfg).unwrap().sub, subject);
    }
}

#[test]
fn token_is_valid_through_the_leeway_and_expired_after_it() {
    let cfg = config("s3cret");
    let issued: i64 = 1_700_000_000;
    let token = issue_at("alice".to_string(), issued, &cfg).unwrap();
    assert!(decode_jwt_at(&token, issued + DAY, &cfg).is_ok());
    assert!(decode_jwt_at(&token, issued + DAY + 59, &cfg).is_ok());
    assert!(decode_jwt_at(&token, issued + DAY + 60, &cfg).is_ok());
    assert_eq!(outcome(decode_jwt_at(&token, issued + DAY + 61, &cfg)), Err(TokenError::Expired));
    assert_eq!(outcome(decode_jwt_at(&token, issued + 10 * DAY, &cfg)), Err(TokenError::Expired));
    assert!(decode_jwt_at(&token, issued - DAY, &cfg).is_ok());
}

#[test]
fn token_issued_a_day_and_61_seconds_ago_is_expired_now() {
    let cfg = config("s3cret");
    let token = issue_at("alice".to_string(), clock() - DAY - 61, &cfg).unwrap();
    assert_eq!(outcome(decode_jwt(&token, &cfg)), Err(TokenError::Expired));
}

#[test]
fn token_issued_a_day_and_55_seconds_ago_is_still_valid_now() {
    let cfg = config("s3cret");
    let token = issue_at("alice".to_string(), clock() - DAY - 55, &cfg).unwrap();
    assert_eq!(decode_jwt(&token, &cfg).unwrap().sub, "alice");
}

#[test]
fn configured_windows_move_the_boundary() {
    let cfg = config("s3cret").with_windows(100, 5).unwrap();
    let token = issue_at("alice".to_string(), 1_000, &cfg).unwrap();
    assert_eq!(decode_jwt_at(&token, 1_000, &cfg).unwrap().exp, 1_100);
    assert!(decode_jwt_at(&token, 1_105, &cfg).is_ok());
    assert_eq!(outcome(decode_jwt_at(&token, 1_106, &cfg)), Err(TokenError::Expired));
}

#[test]
fn token_signed_with_another_secret_is_an_invalid_signature() {
    let token = issue_at("alice".to_string(), 1_700_000_000, &config("secret-a")).unwrap();
    let r = decode_jwt_at(&token, 1_700_000_000, &config("secret-b"));
    assert_eq!(outcome(r), Err(TokenError::InvalidSignature));
    let r = decode_jwt(&token, &config("secret-b"));
    assert_eq!(outcome(r), Err(TokenError::InvalidSignature));
}

#[test]
fn expired_token_under_another_secret_is_an_invalid_signature() {
    let token = issue_at("alice".to_string(), 1_000, &config("secret-a")).unwrap();
    let r = decode_jwt_at(&token, 1_700_000_000, &config("secret-b"));
    assert_eq!(outcome(r), Err(TokenError::InvalidSignature));
}

#[test]
fn tampered_claims_are_an_invalid_signature() {
    let cfg = config("s3cret");
    let alice = issue_at("alice".to_string(), 1_700_000_000, &cfg).unwrap();
    let mallory = issue_at("mallory".to_string(), 1_700_000_000, &cfg).unwrap();
    let a: Vec<&str> = alice.split('.').collect();
    let m: Vec<&str> = mallory.split('.').collect();
    let forged = format!("{}.{}.{}", a[0], m[1], a[2]);
    assert_eq!(outcome(decode_jwt_at(&forged, 1_700_000_000, &cfg)), Err(TokenError::InvalidSignature));
}

#[test]
fn malformed_tokens_are_refused_without_fault() {
    let cfg = config("s3cret");
    for token in ["", ".", "..", "...", "a.b", "a.b.c", "a.b.c.d", "not a token", "Bearer x", "ey.ey.ey", "\u{0}", "é.é.é"] {
        assert_eq!(outcome(decode_jwt_at(token, 1_700_000_000, &cfg)), Err(TokenError::Malformed), "{:?}", token);
        assert_eq!(outcome(decode_jwt(token, &cfg)), Err(TokenError::Malformed), "{:?}", token);
    }
}

#[test]
fn truncated_tokens_are_refused_without_fault() {
    let cfg = config("s3cret");
    let token = issue_at("alice".to_string(), 1_700_000_000, &cfg).unwrap();
    for cut in 0..token.len() {
        let r = outcome(decode_jwt_at(&token[..cut], 1_700_000_000, &cfg));
        assert!(
            r == Err(TokenError::Malformed) || r == Err(TokenError::InvalidSignature),
            "{} {:?}",
            cut,
            r
        );
    }
}

#[test]
fn token_without_signature_part_is_malformed() {
    let cfg = config("s3cret");
    let token = issue_at("alice".to_string(), 1_700_000_000, &cfg).unwrap();
    let cut = token.rfind('.').unwrap();
    assert_eq!(outcome(decode_jwt_at(&token[..cut], 1_700_000_000, &cfg)), Err(TokenError::Malformed));
    let empty_signature = &token[..cut + 1];
    assert_eq!(outcome(decode_jwt_at(empty_signature, 1_700_000_000, &cfg)), Err(TokenError::InvalidSignature));
}

#[test]
fn token_of_another_algorithm_is_malformed() {
    let claims = [
        ("sub", Value::from("alice")),
        ("iat", Value::from(1_700_000_000u64)),
        ("exp", Value::from(1_700_086_400u64)),
    ];
    let token = signed_with(Algorithm::HS384, "s3cret", &claims);
    let r = decode_jwt_at(&token, 1_700_000_000, &config("s3cret"));
    assert_eq!(outcome(r), Err(TokenError::Malformed));
}

#[test]
fn signed_token_with_missing_or_mistyped_claims_is_malformed() {
    let cfg = config("s3cret");
    let sub = ("sub", Value::from("alice"));
    let iat = ("iat", Value::from(1_700_000_000u64));
    let exp = ("exp", Value::from(1_700_086_400u64));
    let cases: Vec<Vec<(&str, Value)>> = vec![
        vec![],
        vec![sub.clone(), iat.clone()],
        vec![sub.clone(), exp.clone()],
        vec![iat.clone(), exp.clone()],
        vec![("sub", Value::from(7)), iat.clone(), exp.clone()],
        vec![sub.clone(), ("iat", Value::from("then")), exp.clone()],
        vec![sub.clone(), ("iat", Value::from(-5)), exp.clone()],
        vec![sub.clone(), iat.clone(), ("exp", Value::from("never"))],
        vec![sub.clone(), iat.clone(), ("exp", Value::Null)],
        vec![sub.clone(), iat.clone(), exp.clone(), ("aud", Value::from("someone"))],
    ];
    for claims in cases {
        let token = signed_with(Algorithm::HS256, "s3cret", &claims);
        let r = decode_jwt_at(&token, 1_700_000_000, &cfg);
        assert_eq!(outcome(r), Err(TokenError::Malformed), "{:?}", claims);
    }
}

#[test]
fn signed_token_with_further_claims_is_accepted() {
    let claims = [
        ("sub", Value::from("alice")),
        ("iat", Value::from(1_700_000_000u64)),
        ("exp", Value::from(1_700_086_400u64)),
        ("role", Value::from("admin")),
    ];
    let token = signed_with(Algorithm::HS256, "s3cret", &claims);
    let r = decode_jwt_at(&token, 1_700_000_000, &config("s3cret"));
    assert_eq!(outcome(r), Ok(("alice".to_string(), 1_700_000_000, 1_700_086_400)));
}

#[test]
fn signed_token_whose_window_differs_is_judged_by_its_own_expiry() {
    let claims = [
        ("sub", Value::from("alice")),
        ("iat", Value::from(1_000u64)),
        ("exp", Value::from(1_010u64)),
    ];
    let token = signed_with(Algorithm::HS256, "s3cret", &claims);
    let cfg = config("s3cret");
    assert!(decode_jwt_at(&token, 1_070, &cfg).is_ok());
    assert_eq!(outcome(decode_jwt_at(&token, 1_071, &cfg)), Err(TokenError::Expired));
}
