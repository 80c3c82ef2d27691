use crate::config::AuthConfig;
use crate::domain::permission::{Permission, PermissionView};
use crate::domain::user::{UserCredentials, UserGroup, UserRepository, UserWithGroups};
use crate::shared::clock::current_timestamp;
use crate::shared::errors::{DomainError, DomainErrorView};
use vstd::prelude::*;
use vstd::string::StringExecFns;

verus! {

/// What a token says of its bearer.
#[derive(Debug, Clone, PartialEq, Eq)]
pub struct AuthClaims {
    pub sub: i64,
    pub email: String,
    pub groups: Vec<i64>,
    pub exp: i64,
    pub iss: String,
    pub aud: String,
    pub permissions: Vec<Permission>,
}

/// Claims as a plain value.
pub struct ClaimsView {
    pub sub: i64,
    pub email: Seq<char>,
    pub groups: Seq<i64>,
    pub exp: i64,
    pub iss: Seq<char>,
    pub aud: Seq<char>,
    pub permissions: Seq<PermissionView>,
}

impl View for AuthClaims {
    type V = ClaimsView;

    open spec fn view(&self) -> ClaimsView {
        ClaimsView {
            sub: self.sub,
            email: self.email@,
            groups: self.groups@,
            exp: self.exp,
            iss: self.iss@,
            aud: self.aud@,
            permissions: Seq::new(self.permissions@.len(), |i: int| self.permissions@[i]@),
        }
    }
}

/// The token handed to a caller who has logged in.
#[derive(Debug, Clone, PartialEq, Eq)]
pub struct AuthToken {
    pub access_token: String,
}

/// Turns claims into a signed token and a token back into claims. Beside
/// each operation stands what the codec promises of its answers to it; a
/// codec that promises nothing leaves that at `true`.
pub trait TokenEncoder {
    /// Whether the codec may give `answer` when it is asked to encode the
    /// claims.
    open spec fn may_encode(&self, claims: ClaimsView, answer: Result<String, DomainError>) -> bool {
        true
    }

    /// Whether the codec may give `answer` when it is asked to decode the
    /// token.
    open spec fn may_decode(&self, token: Seq<char>, answer: Result<AuthClaims, DomainError>) -> bool {
        true
    }

    fn encode(&self, claims: &AuthClaims) -> (answer: Result<String, DomainError>)
        ensures
            self.may_encode(claims@, answer),
    ;

    fn decode(&self, token: &str) -> (answer: Result<AuthClaims, DomainError>)
        ensures
            self.may_decode(token@, answer),
    ;
}

/// Checks and makes the stored form of passwords. An `Err` carries the
/// description of a fault, such as a stored hash that cannot be read; a
/// password that does not match is `Ok(false)`.
pub trait PasswordManager {
    /// Whether `answer` may be given when the password is checked against
    /// the stored hash and salt. An implementation says here what it
    /// promises of its answers; one that promises nothing leaves that at
    /// `true`.
    open spec fn may_verify(
        &self,
        raw: Seq<char>,
        hashed: Seq<char>,
        salt: Seq<char>,
        answer: Result<bool, String>,
    ) -> bool {
        true
    }

    /// Whether `answer` may be given when the password is hashed under the
    /// salt.
    open spec fn may_hash(&self, raw: Seq<char>, salt: Seq<char>, answer: Result<String, String>) -> bool {
        true
    }

    fn verify(&self, raw: &str, hashed: &str, salt: &str) -> (answer: Result<bool, String>)
        ensures
            self.may_verify(raw@, hashed@, salt@, answer),
    ;

    fn hash(&self, raw: &str, salt: &str) -> (answer: Result<String, String>)
        ensures
            self.may_hash(raw@, salt@, answer),
    ;
}

/// The identifiers of the given groups, in their order.
pub open spec fn spec_group_ids(groups: Seq<UserGroup>) -> Seq<i64> {
    Seq::new(groups.len(), |i: int| groups[i].id)
}

/// The identifiers of the given groups, in their order.
pub fn group_ids(groups: &Vec<UserGroup>) -> (out: Vec<i64>)
    ensures
        out@ == spec_group_ids(groups@),
{
    let mut out: Vec<i64> = Vec::new();
    let mut i: usize = 0;
    while i < groups.len()
        invariant
            i <= groups.len(),
            out@ == spec_group_ids(groups@.subrange(0, i as int)),
        decreases groups.len() - i,
    {
        out.push(groups[i].id);
        assert(out@ =~= spec_group_ids(groups@.subrange(0, i + 1)));
        i = i + 1;
    }
    assert(groups@.subrange(0, i as int) =~= groups@);
    out
}

/// The first step of a login, on what the user store answered: an unknown
/// e-mail is refused as invalid credentials, without a word on whether the
/// account exists; a user without loaded credentials and a fault of the
/// store are unexpected errors.
pub open spec fn spec_principal(found: Result<Option<UserWithGroups>, DomainError>) -> Result<
    UserWithGroups,
    DomainErrorView,
> {
    match found {
        Err(fault) => Err(DomainErrorView::Unexpected(fault.spec_as_fault())),
        Ok(None) => Err(DomainErrorView::InvalidCredentials),
        Ok(Some(user)) => if user.credentials is Some {
            Ok(user)
        } else {
            Err(DomainErrorView::Unexpected("credentials not loaded"@))
        },
    }
}

/// The first step of a login, on what the user store answered.
pub fn principal(found: Result<Option<UserWithGroups>, DomainError>) -> (out: Result<
    UserWithGroups,
    DomainError,
>)
    ensures
        match spec_principal(found) {
            Ok(user) => out == Ok::<UserWithGroups, DomainError>(user),
            Err(e) => out matches Err(error) && error@ == e,
        },
{
    match found {
        Err(fault) => Err(fault.into_fault()),
        Ok(None) => Err(DomainError::InvalidCredentials),
        Ok(Some(user)) => {
            if user.credentials.is_some() {
                Ok(user)
            } else {
                Err(DomainError::Unexpected(String::from_str("credentials not loaded")))
            }
        },
    }
}

/// The second step of a login, on what the password check answered: a
/// password that does not match is refused as invalid credentials; a fault
/// of the check is an unexpected error with the fault's description.
pub open spec fn spec_password_outcome(checked: Result<bool, String>) -> Result<(), DomainErrorView> {
    match checked {
        Ok(true) => Ok(()),
        Ok(false) => Err(DomainErrorView::InvalidCredentials),
        Err(fault) => Err(DomainErrorView::Unexpected(fault@)),
    }
}

/// The second step of a login, on what the password check answered.
pub fn password_outcome(checked: Result<bool, String>) -> (out: Result<(), DomainError>)
    ensures
        match spec_password_outcome(checked) {
            Ok(_) => out is Ok,
            Err(e) => out matches Err(error) && error@ == e,
        },
{
    match checked {
        Ok(true) => Ok(()),
        Ok(false) => Err(DomainError::InvalidCredentials),
        Err(fault) => Err(DomainError::Unexpected(fault)),
    }
}

/// The claims issued to a user at the time `now`: the user's identifier,
/// e-mail and groups, the configured issuer and audience, an expiry one
/// time-to-live after `now`, and no permissions, which are worked out anew
/// for every request.
pub open spec fn spec_claims(user: UserWithGroups, config: AuthConfig, now: i64) -> ClaimsView {
    ClaimsView {
        sub: user.user.id.0,
        email: user.user.email@,
        groups: spec_group_ids(user.groups@),
        exp: (now + config.jwt_ttl_seconds) as i64,
        iss: config.jwt_issuer@,
        aud: config.jwt_audience@,
        permissions: Seq::empty(),
    }
}

/// Whether an expiry one time-to-live after `now` can be written down.
pub open spec fn expiry_in_range(config: AuthConfig, now: i64) -> bool {
    i64::MIN <= now + config.jwt_ttl_seconds <= i64::MAX
}

/// The claims issued to a user at the time `now`.
pub fn build_claims(user: &UserWithGroups, config: &AuthConfig, now: i64) -> (out: AuthClaims)
    requires
        expiry_in_range(*config, now),
    ensures
        out@ == spec_claims(*user, *config, now),
{
    let out = AuthClaims {
        sub: user.user.id.0,
        email: user.user.email.clone(),
        groups: group_ids(&user.groups),
        exp: now + config.jwt_ttl_seconds,
        iss: config.jwt_issuer.clone(),
        aud: config.jwt_audience.clone(),
        permissions: Vec::new(),
    };
    assert(out@.permissions =~= Seq::empty());
    out
}

/// The claims issued to a user at the time `now`, or an unexpected error
/// where the expiry cannot be written down.
pub fn issue_claims(user: &UserWithGroups, config: &AuthConfig, now: i64) -> (out: Result<
    AuthClaims,
    DomainError,
>)
    ensures
        expiry_in_range(*config, now) ==> (out matches Ok(claims) && claims@ == spec_claims(
            *user,
            *config,
            now,
        )),
        !expiry_in_range(*config, now) ==> (out matches Err(e) && e@
            == DomainErrorView::Unexpected("token expiry out of range"@)),
{
    match now.checked_add(config.jwt_ttl_seconds) {
        Some(_) => Ok(build_claims(user, config, now)),
        None => Err(DomainError::Unexpected(String::from_str("token expiry out of range"))),
    }
}

/// Whether `out` is what the last step of a login answers, given what the
/// token codec answered: the token, or an unexpected error that carries
/// the codec's fault.
pub open spec fn is_token_outcome(
    encoded: Result<String, DomainError>,
    out: Result<AuthToken, DomainError>,
) -> bool {
    match encoded {
        Ok(token) => out == Ok::<AuthToken, DomainError>(AuthToken { access_token: token }),
        Err(fault) => out matches Err(e) && e@ == DomainErrorView::Unexpected(fault.spec_as_fault()),
    }
}

/// The last step of a login, on what the token codec answered.
pub fn token_outcome(encoded: Result<String, DomainError>) -> (out: Result<AuthToken, DomainError>)
    ensures
        is_token_outcome(encoded, out),
{
    match encoded {
        Ok(token) => Ok(AuthToken { access_token: token }),
        Err(fault) => Err(fault.into_fault()),
    }
}

/// Whether `out` is what a login answers, given what the user store, the
/// password check, the clock and the token codec answered. The steps are
/// taken in this order, and the first that fails decides: an answer of a
/// later step then plays no part.
pub open spec fn is_login_outcome(
    found: Result<Option<UserWithGroups>, DomainError>,
    checked: Result<bool, String>,
    now: i64,
    encoded: Result<String, DomainError>,
    config: AuthConfig,
    out: Result<AuthToken, DomainError>,
) -> bool {
    match spec_principal(found) {
        Err(e) => out matches Err(error) && error@ == e,
        Ok(_) => match spec_password_outcome(checked) {
            Err(e) => out matches Err(error) && error@ == e,
            Ok(_) => if expiry_in_range(config, now) {
                is_token_outcome(encoded, out)
            } else {
                out matches Err(error) && error@ == DomainErrorView::Unexpected(
                    "token expiry out of range"@,
                )
            },
        },
    }
}

/// An unknown e-mail and a wrong password are refused alike: both give the
/// same error, invalid credentials, which carries nothing that would tell
/// them apart.
pub proof fn lemma_refusals_alike()
    ensures
        spec_principal(Ok(None)) is Err,
        spec_password_outcome(Ok(false)) is Err,
        spec_principal(Ok(None))->Err_0 == spec_password_outcome(Ok(false))->Err_0,
        spec_principal(Ok(None))->Err_0 == DomainErrorView::InvalidCredentials,
{
}

/// The claims issued to a user carry the user's own identifier, e-mail and
/// groups, and no permissions.
pub proof fn lemma_claims_carry_user(user: UserWithGroups, config: AuthConfig, now: i64)
    ensures
        spec_claims(user, config, now).sub == user.user.id.0,
        spec_claims(user, config, now).email == user.user.email@,
        spec_claims(user, config, now).groups.len() == user.groups@.len(),
        forall|i: int|
            0 <= i < user.groups@.len() ==> #[trigger] spec_claims(user, config, now).groups[i]
                == user.groups@[i].id,
        spec_claims(user, config, now).permissions.len() == 0,
{
}

/// Whether claims are well formed at the time of their issuance: the
/// e-mail is not empty, and the expiry lies strictly in the future.
pub open spec fn spec_well_formed(claims: ClaimsView, issued_at: i64) -> bool {
    claims.email.len() > 0 && issued_at < claims.exp
}

/// The claims issued to a user with an e-mail, under a positive
/// time-to-live, are well formed.
pub proof fn lemma_issued_claims_well_formed(user: UserWithGroups, config: AuthConfig, now: i64)
    requires
        user.user.email@.len() > 0,
        config.jwt_ttl_seconds > 0,
        expiry_in_range(config, now),
    ensures
        spec_well_formed(spec_claims(user, config, now), now),
{
}

/// Claims issued with a time-to-live of zero or less have expired at the
/// moment of issuance and at every moment after it.
pub proof fn lemma_no_time_to_live(user: UserWithGroups, config: AuthConfig, now: i64, later: i64)
    requires
        config.jwt_ttl_seconds <= 0,
        expiry_in_range(config, now),
        now <= later,
    ensures
        spec_claims(user, config, now).exp <= later,
{
}

/// Whether `out` is what reading a token answers, given what the token
/// codec answered: the claims, or invalid credentials, whatever the
/// codec's reason to refuse the token.
pub open spec fn is_decode_outcome(
    decoded: Result<AuthClaims, DomainError>,
    out: Result<AuthClaims, DomainError>,
) -> bool {
    match decoded {
        Ok(claims) => out matches Ok(read) && read == claims,
        Err(_) => out matches Err(e) && e is InvalidCredentials,
    }
}

/// What reading a token answers, given what the token codec answered.
pub fn decode_outcome(decoded: Result<AuthClaims, DomainError>) -> (out: Result<
    AuthClaims,
    DomainError,
>)
    ensures
        is_decode_outcome(decoded, out),
{
    match decoded {
        Ok(claims) => Ok(claims),
        Err(_) => Err(DomainError::InvalidCredentials),
    }
}

/// Issues tokens to users who present their password, and reads tokens
/// back.
pub struct AuthService<U: UserRepository, P: PasswordManager, T: TokenEncoder> {
    user_repo: U,
    password: P,
    token: T,
    auth_config: AuthConfig,
}

impl<U: UserRepository, P: PasswordManager, T: TokenEncoder> AuthService<U, P, T> {
    pub fn new(user_repo: U, password: P, token: T, auth_config: AuthConfig) -> (out: Self)
        ensures
            out.users() == user_repo,
            out.passwords() == password,
            out.codec() == token,
            out.config() == auth_config,
    {
        Self { user_repo, password, token, auth_config }
    }

    /// The user store that the service asks.
    pub closed spec fn users(&self) -> U {
        self.user_repo
    }

    /// What checks the passwords.
    pub closed spec fn passwords(&self) -> P {
        self.password
    }

    /// The codec that makes and reads the tokens.
    pub closed spec fn codec(&self) -> T {
        self.token
    }

    /// What tokens are issued by.
    pub closed spec fn config(&self) -> AuthConfig {
        self.auth_config
    }

    /// Whether the collaborators may have given these answers in a login
    /// with this e-mail and password. The user store is asked for exactly
    /// this e-mail. Where it answers with a user, the password check is
    /// asked for exactly this password against that user's stored hash and
    /// salt. Where the password matches and the expiry can be written down,
    /// the codec is asked to encode exactly the claims issued to that user
    /// at the time `now`.
    pub open spec fn asked_in_login(
        &self,
        email: Seq<char>,
        password: Seq<char>,
        found: Result<Option<UserWithGroups>, DomainError>,
        checked: Result<bool, String>,
        now: i64,
        encoded: Result<String, DomainError>,
    ) -> bool {
        let user = spec_principal(found)->Ok_0;
        &&& self.users().may_find_by_email(email, found)
        &&& spec_principal(found) is Ok ==> self.passwords().may_verify(
            password,
            user.credentials->0.password_hash@,
            user.credentials->0.salt@,
            checked,
        )
        &&& (spec_principal(found) is Ok && spec_password_outcome(checked) is Ok && expiry_in_range(
            self.config(),
            now,
        )) ==> self.codec().may_encode(spec_claims(user, self.config(), now), encoded)
    }

    /// Whether `out` may be the answer to a login with this e-mail and
    /// password: it is what a login answers on answers that the
    /// collaborators may have given to what the login asks them.
    pub open spec fn may_login(
        &self,
        email: Seq<char>,
        password: Seq<char>,
        out: Result<AuthToken, DomainError>,
    ) -> bool {
        exists|
            found: Result<Option<UserWithGroups>, DomainError>,
            checked: Result<bool, String>,
            now: i64,
            encoded: Result<String, DomainError>,
        |
            self.asked_in_login(email, password, found, checked, now, encoded)
                && #[trigger] is_login_outcome(found, checked, now, encoded, self.config(), out)
    }

    /// Whether `out` may be the answer to the reading of a token: the
    /// claims that the codec may give for exactly this token, or invalid
    /// credentials where the codec may refuse it.
    pub open spec fn may_read(&self, token: Seq<char>, out: Result<AuthClaims, DomainError>) -> bool {
        exists|decoded: Result<AuthClaims, DomainError>|
            self.codec().may_decode(token, decoded) && #[trigger] is_decode_outcome(decoded, out)
    }

    /// Logs a user in: looks the e-mail up, checks the password against the
    /// stored credentials, and has a token made of the claims issued to the
    /// user at the time that the clock shows. Every refusal of the caller's
    /// input is the same error, invalid credentials; anything else that
    /// goes wrong is an unexpected error.
    pub fn login(&self, email: &str, password: &str) -> (out: Result<AuthToken, DomainError>)
        ensures
            self.may_login(email@, password@, out),
            out matches Err(e) ==> e is InvalidCredentials || e is Unexpected,
    {
        let found = self.user_repo.find_by_email(email);
        let ghost found_answer = found;
        let user = match principal(found) {
            Ok(user) => user,
            Err(e) => {
                proof {
                    let checked: Result<bool, String> = arbitrary();
                    let now: i64 = arbitrary();
                    let encoded: Result<String, DomainError> = arbitrary();
                    let out = Err::<AuthToken, DomainError>(e);
                    assert(self.asked_in_login(email@, password@, found_answer, checked, now, encoded));
                    assert(is_login_outcome(found_answer, checked, now, encoded, self.config(), out));
                }
                return Err(e);
            },
        };
        let creds = user.credentials.as_ref().unwrap();
        let checked = self.password.verify(
            password,
            creds.password_hash.as_str(),
            creds.salt.as_str(),
        );
        let ghost checked_answer = checked;
        match password_outcome(checked) {
            Ok(_) => {},
            Err(e) => {
                proof {
                    let now: i64 = arbitrary();
                    let encoded: Result<String, DomainError> = arbitrary();
                    let out = Err::<AuthToken, DomainError>(e);
                    assert(self.asked_in_login(
                        email@,
                        password@,
                        found_answer,
                        checked_answer,
                        now,
                        encoded,
                    ));
                    assert(is_login_outcome(
                        found_answer,
                        checked_answer,
                        now,
                        encoded,
                        self.config(),
                        out,
                    ));
                }
                return Err(e);
            },
        }
        let now = current_timestamp();
        let claims = match issue_claims(&user, &self.auth_config, now) {
            Ok(claims) => claims,
            Err(e) => {
                proof {
                    let encoded: Result<String, DomainError> = arbitrary();
                    let out = Err::<AuthToken, DomainError>(e);
                    assert(self.asked_in_login(
                        email@,
                        password@,
                        found_answer,
                        checked_answer,
                        now,
                        encoded,
                    ));
                    assert(is_login_outcome(
                        found_answer,
                        checked_answer,
                        now,
                        encoded,
                        self.config(),
                        out,
                    ));
                }
                return Err(e);
            },
        };
        let encoded = self.token.encode(&claims);
        let ghost encoded_answer = encoded;
        let out = token_outcome(encoded);
        proof {
            assert(self.asked_in_login(
                email@,
                password@,
                found_answer,
                checked_answer,
                now,
                encoded_answer,
            ));
            assert(is_login_outcome(
                found_answer,
                checked_answer,
                now,
                encoded_answer,
                self.config(),
                out,
            ));
        }
        out
    }

    /// Reads a token back into claims, as the token codec decides. Whatever
    /// the codec's reason to refuse a token, the caller learns of invalid
    /// credentials and of nothing else.
    pub fn decode(&self, token: &str) -> (out: Result<AuthClaims, DomainError>)
        ensures
            self.may_read(token@, out),
            out matches Err(e) ==> e is InvalidCredentials,
    {
        let decoded = self.token.decode(token);
        let ghost answer = decoded;
        let out = decode_outcome(decoded);
        assert(is_decode_outcome(answer, out));
        out
    }
}

} // verus!
