use admin_backend::application::auth_service::{AuthClaims, TokenEncoder};
use admin_backend::domain::permission::{Permission, PermissionBits};
use admin_backend::infrastructure::auth::jwt::{
    claims_of, payload_of, permission_of, rule_triple, JwtService, TokenPayload, TokenState,
};
use admin_backend::shared::errors::DomainError;

fn now() -> i64 {
    std::time::SystemTime::now().duration_since(std::time::UNIX_EPOCH).unwrap().as_secs() as i64
}

fn codec() -> JwtService {
    JwtService::new("top-secret".to_string(), "admin".to_string(), "console".to_string())
}

fn claims(exp: i64) -> AuthClaims {
    AuthClaims {
        sub: 42,
        email: "ann@example.com".to_string(),
        groups: vec![3, 5, 8],
        exp,
        iss: "admin".to_string(),
        aud: "console".to_string(),
        permissions: vec![],
    }
}

#[test]
fn round_trip_returns_the_claims() {
    let c = claims(now() + 3600);
    let token = codec().encode(&c).unwrap();
    assert_eq!(codec().decode(&token), Ok(c));
}

#[test]
fn round_trip_with_permissions_and_unusual_text() {
    let mut c = claims(now() + 3600);
    c.sub = -9;
    c.email = "zoë \"q\" <z@example.com>\n".to_string();
    c.groups = vec![];
    c.permissions = vec![
        Permission {
            resource: "/reports*".to_string(),
            group_id: 3,
            bits: PermissionBits::read() | PermissionBits::write(),
        },
        Permission { resource: "/日本語".to_string(), group_id: -1, bits: PermissionBits::from_bits(16) },
    ];
    let token = codec().encode(&c).unwrap();
    assert_eq!(codec().decode(&token), Ok(c));
}

#[test]
fn encoding_is_deterministic() {
    let c = claims(2_000_000_000);
    let one = codec().encode(&c).unwrap();
    let two = codec().encode(&c).unwrap();
    assert_eq!(one, two);
    assert_eq!(one.split('.').count(), 3);
    assert!(one.starts_with("eyJ"));
    let other = JwtService::new("other".to_string(), "admin".to_string(), "console".to_string());
    assert_ne!(other.encode(&c).unwrap(), one);
}

#[test]
fn flipping_any_byte_makes_decoding_fail() {
    let c = claims(now() + 3600);
    let token = codec().encode(&c).unwrap();
    assert_eq!(codec().decode(&token), Ok(c));
    let bytes = token.as_bytes();
    for i in 0..bytes.len() {
        for mask in [0x01u8, 0x02, 0x20] {
            let mut changed = bytes.to_vec();
            changed[i] ^= mask;
            if let Ok(text) = String::from_utf8(changed) {
                assert_eq!(
                    codec().decode(&text),
                    Err(DomainError::InvalidCredentials),
                    "byte {} changed with {}",
                    i,
                    mask
                );
            }
        }
    }
}

#[test]
fn dropping_or_adding_a_byte_makes_decoding_fail() {
    let c = claims(now() + 3600);
    let token = codec().encode(&c).unwrap();
    let mut shorter = token.clone();
    shorter.pop();
    assert_eq!(codec().decode(&shorter), Err(DomainError::InvalidCredentials));
    let longer = format!("{}A", token);
    assert_eq!(codec().decode(&longer), Err(DomainError::InvalidCredentials));
}

#[test]
fn token_without_time_to_live_fails_at_once() {
    let c = claims(now());
    let token = codec().encode(&c).unwrap();
    assert_eq!(codec().decode(&token), Err(DomainError::InvalidCredentials));
}

#[test]
fn token_with_past_expiry_fails() {
    let c = claims(now() - 1);
    let token = codec().encode(&c).unwrap();
    assert_eq!(codec().decode(&token), Err(DomainError::InvalidCredentials));
    let long_ago = claims(1);
    let token = codec().encode(&long_ago).unwrap();
    assert_eq!(codec().decode(&token), Err(DomainError::InvalidCredentials));
}

#[test]
fn expiry_is_the_first_moment_of_refusal() {
    let c = claims(1_000);
    let token = codec().encode(&c).unwrap();
    assert_eq!(codec().decode_at(&token, 999), Ok(c.clone()));
    assert_eq!(codec().decode_at(&token, 0), Ok(c.clone()));
    assert_eq!(codec().decode_at(&token, -5), Ok(c));
    assert_eq!(codec().decode_at(&token, 1_000), Err(DomainError::InvalidCredentials));
    assert_eq!(codec().decode_at(&token, 1_001), Err(DomainError::InvalidCredentials));
    assert_eq!(codec().decode_at(&token, i64::MAX), Err(DomainError::InvalidCredentials));
}

#[test]
fn expiry_within_the_last_minute_is_refused() {
    let c = claims(now() - 30);
    let token = codec().encode(&c).unwrap();
    assert_eq!(codec().decode(&token), Err(DomainError::InvalidCredentials));
}

#[test]
fn wrong_secret_fails() {
    let c = claims(now() + 3600);
    let token = codec().encode(&c).unwrap();
    let other = JwtService::new("top-secreT".to_string(), "admin".to_string(), "console".to_string());
    assert_eq!(other.decode(&token), Err(DomainError::InvalidCredentials));
    let empty = JwtService::new(String::new(), "admin".to_string(), "console".to_string());
    assert_eq!(empty.decode(&token), Err(DomainError::InvalidCredentials));
}

#[test]
fn issuer_and_audience_are_those_of_the_codec() {
    let c = claims(now() + 3600);
    let token = codec().encode(&c).unwrap();
    let other_issuer =
        JwtService::new("top-secret".to_string(), "someone".to_string(), "console".to_string());
    assert_eq!(other_issuer.decode(&token), Err(DomainError::InvalidCredentials));
    let other_audience =
        JwtService::new("top-secret".to_string(), "admin".to_string(), "mobile".to_string());
    assert_eq!(other_audience.decode(&token), Err(DomainError::InvalidCredentials));
}

#[test]
fn token_that_names_its_own_issuer_is_not_believed() {
    let mut forged = claims(now() + 3600);
    forged.iss = "intruder".to_string();
    forged.aud = "anyone".to_string();
    let token = codec().encode(&forged).unwrap();
    assert_eq!(codec().decode(&token), Err(DomainError::InvalidCredentials));
    assert_eq!(codec().decode_at(&token, 0), Err(DomainError::InvalidCredentials));
}

#[test]
fn malformed_tokens_fail_alike() {
    for text in ["", "abc", "a.b", "a.b.c", "...", "a.b.c.d", "Bearer x", "é.é.é"] {
        assert_eq!(codec().decode(text), Err(DomainError::InvalidCredentials), "{:?}", text);
        assert_eq!(codec().decode_at(text, 0), Err(DomainError::InvalidCredentials), "{:?}", text);
        assert_eq!(codec().carried_claims(text), None, "{:?}", text);
    }
}

#[test]
fn carried_claims_do_not_depend_on_the_time() {
    let c = claims(5);
    let token = codec().encode(&c).unwrap();
    assert_eq!(codec().carried_claims(&token), Some(c));
}

#[test]
fn negative_expiry_is_refused() {
    let c = claims(-10);
    let token = codec().encode(&c).unwrap();
    assert_eq!(codec().decode_at(&token, -20), Err(DomainError::InvalidCredentials));
}

#[test]
fn claims_are_checked_against_the_codec_and_the_time() {
    let c = claims(100);
    assert_eq!(codec().check_claims(c.clone(), 99), Ok(c.clone()));
    assert_eq!(codec().check_claims(c.clone(), 100), Err(DomainError::InvalidCredentials));
    assert_eq!(codec().check_claims(c.clone(), 101), Err(DomainError::InvalidCredentials));
    let mut other = c.clone();
    other.iss = "Admin".to_string();
    assert_eq!(codec().check_claims(other, 0), Err(DomainError::InvalidCredentials));
    let mut other = c.clone();
    other.aud = "console ".to_string();
    assert_eq!(codec().check_claims(other, 0), Err(DomainError::InvalidCredentials));
    let mut other = c;
    other.aud = String::new();
    assert_eq!(codec().check_claims(other, 0), Err(DomainError::InvalidCredentials));
}

#[test]
fn rules_and_triples_stand_for_each_other() {
    let rule = Permission {
        resource: "/reports*".to_string(),
        group_id: 4,
        bits: PermissionBits::from_bits(5),
    };
    assert_eq!(rule_triple(&rule), ("/reports*".to_string(), 4, 5));
    assert_eq!(permission_of(("/reports*".to_string(), 4, 5)), rule);
}

#[test]
fn token_goes_from_valid_to_expired() {
    let token = codec().encode(&claims(1_000)).unwrap();
    assert_eq!(codec().state_at(&token, 0), TokenState::Valid);
    assert_eq!(codec().state_at(&token, 999), TokenState::Valid);
    assert_eq!(codec().state_at(&token, 1_000), TokenState::Expired);
    assert_eq!(codec().state_at(&token, i64::MAX), TokenState::Expired);
}

#[test]
fn token_for_others_is_invalid_at_any_time() {
    let mut foreign = claims(1_000);
    foreign.aud = "mobile".to_string();
    let token = codec().encode(&foreign).unwrap();
    assert_eq!(codec().state_at(&token, 0), TokenState::Invalid);
    assert_eq!(codec().state_at(&token, 2_000), TokenState::Invalid);
    assert_eq!(codec().state_at("a.b.c", 0), TokenState::Invalid);
    let other = JwtService::new("other".to_string(), "admin".to_string(), "console".to_string());
    let token = other.encode(&claims(1_000)).unwrap();
    assert_eq!(codec().state_at(&token, 0), TokenState::Invalid);
    assert_eq!(codec().state_at(&token, 2_000), TokenState::Invalid);
}

#[test]
fn payload_holds_the_claims_as_plain_values() {
    let mut c = claims(77);
    c.permissions = vec![
        Permission { resource: "/a*".to_string(), group_id: 3, bits: PermissionBits::from_bits(6) },
        Permission { resource: "/b".to_string(), group_id: -4, bits: PermissionBits::empty() },
    ];
    let payload = payload_of(&c);
    assert_eq!(
        payload,
        TokenPayload {
            sub: 42,
            email: "ann@example.com".to_string(),
            groups: vec![3, 5, 8],
            exp: 77,
            iss: "admin".to_string(),
            aud: "console".to_string(),
            permissions: vec![("/a*".to_string(), 3, 6), ("/b".to_string(), -4, 0)],
        }
    );
    assert_eq!(claims_of(payload), c);
    let bare = claims(0);
    assert_eq!(claims_of(payload_of(&bare)), bare);
}
