use admin_backend::application::auth_service::{
    build_claims, decode_outcome, group_ids, issue_claims, password_outcome, principal,
    token_outcome,
    AuthClaims, AuthService, AuthToken, PasswordManager, TokenEncoder,
};
use admin_backend::config::AuthConfig;
use admin_backend::domain::user::{
    CreateUserCommand, User, UserCredentials, UserGroup, UserId, UserRepository, UserStatus,
    UserWithGroups,
};
use admin_backend::infrastructure::auth::jwt::JwtService;
use admin_backend::shared::errors::DomainError;

fn now() -> i64 {
    std::time::SystemTime::now().duration_since(std::time::UNIX_EPOCH).unwrap().as_secs() as i64
}

fn config(ttl: i64) -> AuthConfig {
    AuthConfig {
        jwt_secret: "top-secret".to_string(),
        jwt_audience: "console".to_string(),
        jwt_issuer: "admin".to_string(),
        jwt_ttl_seconds: ttl,
        password_salt: "change_me".to_string(),
    }
}

fn codec() -> JwtService {
    JwtService::new("top-secret".to_string(), "admin".to_string(), "console".to_string())
}

fn ann() -> UserWithGroups {
    UserWithGroups {
        user: User {
            id: UserId(42),
            email: "ann@example.com".to_string(),
            first_name: "Ann".to_string(),
            last_name: "Lee".to_string(),
            status: UserStatus::Active,
            last_login: None,
            created_at: 1_700_000_000_000_000,
            updated_at: 1_700_000_000_000_001,
        },
        groups: vec![
            UserGroup { id: 3, name: "analysts".to_string() },
            UserGroup { id: 8, name: "editors".to_string() },
        ],
        credentials: Some(UserCredentials {
            password_hash: "hash-of-ann".to_string(),
            salt: "salt-of-ann".to_string(),
        }),
    }
}

struct Users {
    known: Vec<UserWithGroups>,
    fault: Option<DomainError>,
}

impl UserRepository for Users {
    fn find_by_id(&self, id: &UserId) -> Result<Option<UserWithGroups>, DomainError> {
        Ok(self.known.iter().find(|u| u.user.id == *id).cloned())
    }

    fn find_by_email(&self, email: &str) -> Result<Option<UserWithGroups>, DomainError> {
        match &self.fault {
            Some(e) => Err(e.clone()),
            None => Ok(self.known.iter().find(|u| u.user.email == email).cloned()),
        }
    }

    fn list(&self) -> Result<Vec<UserWithGroups>, DomainError> {
        Ok(self.known.clone())
    }

    fn create(&self, _cmd: CreateUserCommand) -> Result<UserWithGroups, DomainError> {
        Err(DomainError::Unexpected("read only".to_string()))
    }
}

struct Passwords {
    fault: Option<String>,
}

impl PasswordManager for Passwords {
    fn verify(&self, raw: &str, hashed: &str, salt: &str) -> Result<bool, String> {
        match &self.fault {
            Some(text) => Err(text.clone()),
            None => Ok(hashed == "hash-of-ann" && salt == "salt-of-ann" && raw == "open sesame"),
        }
    }

    fn hash(&self, raw: &str, salt: &str) -> Result<String, String> {
        Ok(format!("{}{}", salt, raw))
    }
}

struct BrokenCodec;

impl TokenEncoder for BrokenCodec {
    fn encode(&self, _claims: &AuthClaims) -> Result<String, DomainError> {
        Err(DomainError::PermissionDenied)
    }

    fn decode(&self, _token: &str) -> Result<AuthClaims, DomainError> {
        Err(DomainError::InvalidCredentials)
    }
}

fn service(ttl: i64) -> AuthService<Users, Passwords, JwtService> {
    AuthService::new(
        Users { known: vec![ann()], fault: None },
        Passwords { fault: None },
        codec(),
        config(ttl),
    )
}

#[test]
fn unknown_email_and_wrong_password_are_refused_alike() {
    let auth = service(3600);
    let unknown = auth.login("bob@example.com", "open sesame");
    let wrong = auth.login("ann@example.com", "open barley");
    assert_eq!(unknown, Err(DomainError::InvalidCredentials));
    assert_eq!(wrong, Err(DomainError::InvalidCredentials));
    assert_eq!(unknown, wrong);
    assert_eq!(unknown.unwrap_err().message(), wrong.unwrap_err().message());
}

#[test]
fn login_yields_a_token_with_the_users_groups() {
    let auth = service(3600);
    let before = now();
    let token = auth.login("ann@example.com", "open sesame").unwrap();
    let after = now();
    let claims = auth.decode(&token.access_token).unwrap();
    assert_eq!(claims.groups, vec![3, 8]);
    assert_eq!(claims.sub, 42);
    assert_eq!(claims.email, "ann@example.com");
    assert_eq!(claims.iss, "admin");
    assert_eq!(claims.aud, "console");
    assert!(claims.permissions.is_empty());
    assert!(before + 3600 <= claims.exp && claims.exp <= after + 3600);
}

#[test]
fn login_without_time_to_live_yields_a_token_that_is_refused() {
    let auth = service(0);
    let token = auth.login("ann@example.com", "open sesame").unwrap();
    assert_eq!(auth.decode(&token.access_token), Err(DomainError::InvalidCredentials));
}

#[test]
fn user_without_credentials_is_an_unexpected_error() {
    let mut user = ann();
    user.credentials = None;
    let auth = AuthService::new(
        Users { known: vec![user], fault: None },
        Passwords { fault: None },
        codec(),
        config(3600),
    );
    assert_eq!(
        auth.login("ann@example.com", "open sesame"),
        Err(DomainError::Unexpected("credentials not loaded".to_string()))
    );
}

#[test]
fn fault_of_the_password_check_is_an_unexpected_error() {
    let auth = AuthService::new(
        Users { known: vec![ann()], fault: None },
        Passwords { fault: Some("corrupt hash".to_string()) },
        codec(),
        config(3600),
    );
    assert_eq!(
        auth.login("ann@example.com", "open sesame"),
        Err(DomainError::Unexpected("corrupt hash".to_string()))
    );
}

#[test]
fn fault_of_the_user_store_is_an_unexpected_error() {
    let auth = AuthService::new(
        Users { known: vec![ann()], fault: Some(DomainError::Unexpected("db down".to_string())) },
        Passwords { fault: None },
        codec(),
        config(3600),
    );
    assert_eq!(
        auth.login("ann@example.com", "open sesame"),
        Err(DomainError::Unexpected("db down".to_string()))
    );
    let auth = AuthService::new(
        Users { known: vec![ann()], fault: Some(DomainError::UserNotFound) },
        Passwords { fault: None },
        codec(),
        config(3600),
    );
    assert_eq!(
        auth.login("ann@example.com", "open sesame"),
        Err(DomainError::Unexpected("user not found".to_string()))
    );
}

#[test]
fn fault_of_the_codec_is_an_unexpected_error() {
    let auth = AuthService::new(
        Users { known: vec![ann()], fault: None },
        Passwords { fault: None },
        BrokenCodec,
        config(3600),
    );
    assert_eq!(
        auth.login("ann@example.com", "open sesame"),
        Err(DomainError::Unexpected("permission denied".to_string()))
    );
}

#[test]
fn expiry_that_cannot_be_written_is_an_unexpected_error() {
    let auth = service(i64::MAX);
    assert_eq!(
        auth.login("ann@example.com", "open sesame"),
        Err(DomainError::Unexpected("token expiry out of range".to_string()))
    );
}

#[test]
fn email_is_compared_as_it_is() {
    let auth = service(3600);
    assert_eq!(auth.login("Ann@example.com", "open sesame"), Err(DomainError::InvalidCredentials));
    assert_eq!(auth.login("", ""), Err(DomainError::InvalidCredentials));
}

#[test]
fn first_step_on_what_the_store_answered() {
    assert_eq!(principal(Ok(None)), Err(DomainError::InvalidCredentials));
    assert_eq!(principal(Ok(Some(ann()))), Ok(ann()));
    let mut bare = ann();
    bare.credentials = None;
    assert_eq!(
        principal(Ok(Some(bare))),
        Err(DomainError::Unexpected("credentials not loaded".to_string()))
    );
    assert_eq!(
        principal(Err(DomainError::InvalidCredentials)),
        Err(DomainError::Unexpected("invalid credentials".to_string()))
    );
    assert_eq!(
        principal(Err(DomainError::Unexpected("x".to_string()))),
        Err(DomainError::Unexpected("x".to_string()))
    );
}

#[test]
fn second_step_on_what_the_check_answered() {
    assert_eq!(password_outcome(Ok(true)), Ok(()));
    assert_eq!(password_outcome(Ok(false)), Err(DomainError::InvalidCredentials));
    assert_eq!(
        password_outcome(Err("bad hash".to_string())),
        Err(DomainError::Unexpected("bad hash".to_string()))
    );
}

#[test]
fn claims_are_built_from_user_config_and_time() {
    let claims = build_claims(&ann(), &config(60), 1_000);
    assert_eq!(
        claims,
        AuthClaims {
            sub: 42,
            email: "ann@example.com".to_string(),
            groups: vec![3, 8],
            exp: 1_060,
            iss: "admin".to_string(),
            aud: "console".to_string(),
            permissions: vec![],
        }
    );
    assert_eq!(build_claims(&ann(), &config(-60), 1_000).exp, 940);
    assert_eq!(build_claims(&ann(), &config(0), i64::MAX).exp, i64::MAX);
}

#[test]
fn claims_are_issued_where_the_expiry_fits() {
    assert_eq!(issue_claims(&ann(), &config(60), 1_000), Ok(build_claims(&ann(), &config(60), 1_000)));
    assert_eq!(issue_claims(&ann(), &config(1), i64::MAX - 1).unwrap().exp, i64::MAX);
    assert_eq!(
        issue_claims(&ann(), &config(1), i64::MAX),
        Err(DomainError::Unexpected("token expiry out of range".to_string()))
    );
    assert_eq!(
        issue_claims(&ann(), &config(-1), i64::MIN),
        Err(DomainError::Unexpected("token expiry out of range".to_string()))
    );
}

#[test]
fn last_step_on_what_the_codec_answered() {
    assert_eq!(
        token_outcome(Ok("a.b.c".to_string())),
        Ok(AuthToken { access_token: "a.b.c".to_string() })
    );
    assert_eq!(
        token_outcome(Err(DomainError::Unexpected("no key".to_string()))),
        Err(DomainError::Unexpected("no key".to_string()))
    );
    assert_eq!(
        token_outcome(Err(DomainError::InvalidCredentials)),
        Err(DomainError::Unexpected("invalid credentials".to_string()))
    );
}

#[test]
fn group_identifiers_keep_their_order() {
    assert_eq!(group_ids(&ann().groups), vec![3, 8]);
    assert_eq!(group_ids(&vec![]), Vec::<i64>::new());
    let twice = vec![
        UserGroup { id: 9, name: "a".to_string() },
        UserGroup { id: 1, name: "b".to_string() },
        UserGroup { id: 9, name: "c".to_string() },
    ];
    assert_eq!(group_ids(&twice), vec![9, 1, 9]);
}

#[test]
fn every_refusal_of_a_token_is_invalid_credentials() {
    let c = build_claims(&ann(), &config(60), 1_000);
    assert_eq!(decode_outcome(Ok(c.clone())), Ok(c));
    assert_eq!(decode_outcome(Err(DomainError::InvalidCredentials)), Err(DomainError::InvalidCredentials));
    assert_eq!(
        decode_outcome(Err(DomainError::Unexpected("bad signature".to_string()))),
        Err(DomainError::InvalidCredentials)
    );
    assert_eq!(decode_outcome(Err(DomainError::PermissionDenied)), Err(DomainError::InvalidCredentials));
    let auth = service(3600);
    for token in ["", "abc", "a.b.c"] {
        assert_eq!(auth.decode(token), Err(DomainError::InvalidCredentials));
    }
}
