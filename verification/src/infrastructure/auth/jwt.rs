use crate::application::auth_service::{
    expiry_in_range, spec_claims, spec_group_ids, AuthClaims, ClaimsView, TokenEncoder,
};
use crate::config::AuthConfig;
use crate::domain::user::UserWithGroups;
use crate::domain::permission::{Permission, PermissionBits, PermissionView};
use crate::shared::clock::current_timestamp;
use crate::shared::errors::DomainError;
use crate::shared::text::str_eq;
use vstd::prelude::*;

verus! {

/// `jsonwebtoken::errors::Error`, the error of the calls below. It is
/// carried to where it is turned into an error of the domain, and nothing
/// is known of what it holds.
#[verifier::external_type_specification]
#[verifier::external_body]
pub struct ExTokenError(jsonwebtoken::errors::Error);

/// Claims as they are written into a token: plain values, each rule as
/// the triple of its resource, its group and its bits.
#[derive(Debug, Clone, PartialEq, Eq)]
pub struct TokenPayload {
    pub sub: i64,
    pub email: String,
    pub groups: Vec<i64>,
    pub exp: i64,
    pub iss: String,
    pub aud: String,
    pub permissions: Vec<(String, i64, u32)>,
}

/// The rule that a triple of resource, group and bits stands for.
pub open spec fn triple_view(rule: (String, i64, u32)) -> PermissionView {
    PermissionView { resource: rule.0@, group_id: rule.1, bits: rule.2 }
}

impl View for TokenPayload {
    type V = ClaimsView;

    open spec fn view(&self) -> ClaimsView {
        ClaimsView {
            sub: self.sub,
            email: self.email@,
            groups: self.groups@,
            exp: self.exp,
            iss: self.iss@,
            aud: self.aud@,
            permissions: Seq::new(
                self.permissions@.len(),
                |i: int| triple_view(self.permissions@[i]),
            ),
        }
    }
}

/// The token that `jsonwebtoken::encode` makes, under the secret, of the
/// JSON object with the seven fields of the claims; `None` where it fails.
pub uninterp spec fn signed_token(claims: ClaimsView, secret: Seq<char>) -> Option<Seq<char>>;

/// The payload, as JSON text, of a token that `jsonwebtoken::decode`
/// accepts under the secret for the issuer and the audience; `None` where
/// it refuses the token.
pub uninterp spec fn accepted_payload(
    token: Seq<char>,
    secret: Seq<char>,
    issuer: Seq<char>,
    audience: Seq<char>,
) -> Option<Seq<char>>;

/// The claims that a JSON text holds, as `serde_json` reads them from an
/// object with the seven fields of the claims; `None` where it holds none.
pub uninterp spec fn claims_in_json(payload: Seq<char>) -> Option<ClaimsView>;

/// Calls `jsonwebtoken::encode` with the default header (HS256), the
/// payload as a JSON object of its seven fields, and the secret as the HMAC
/// key. The result is the token that `signed_token` names.
#[verifier::external_body]
fn sign_payload(payload: &TokenPayload, secret: &str) -> (out: Result<
    String,
    jsonwebtoken::errors::Error,
>)
    ensures
        out matches Ok(token) ==> signed_token(payload@, secret@) == Some(token@),
        out is Err ==> signed_token(payload@, secret@) is None,
{
    let body: std::collections::BTreeMap<&str, serde_json::Value> = [
        ("sub", payload.sub.into()),
        ("email", payload.email.as_str().into()),
        ("groups", payload.groups.as_slice().into()),
        ("exp", payload.exp.into()),
        ("iss", payload.iss.as_str().into()),
        ("aud", payload.aud.as_str().into()),
        ("permissions", serde_json::to_value(&payload.permissions)?),
    ].into();
    let key = jsonwebtoken::EncodingKey::from_secret(secret.as_bytes());
    jsonwebtoken::encode(&jsonwebtoken::Header::default(), &body, &key)
}

/// Calls `jsonwebtoken::decode` for HS256 with the secret as the HMAC key
/// and the crate's own check of the expiry, which reads the clock, switched
/// off. A token that names an issuer or an audience is accepted only where
/// it names the given one; a token that names none passes this call. The
/// result is the payload that `accepted_payload` names.
#[verifier::external_body]
fn accept_token(token: &str, secret: &str, issuer: &str, audience: &str) -> (out: Result<
    String,
    jsonwebtoken::errors::Error,
>)
    ensures
        out matches Ok(payload) ==> accepted_payload(token@, secret@, issuer@, audience@) == Some(
            payload@,
        ),
        out is Err ==> accepted_payload(token@, secret@, issuer@, audience@) is None,
{
    let mut rules = jsonwebtoken::Validation::new(jsonwebtoken::Algorithm::HS256);
    rules.validate_exp = false;
    rules.set_issuer(&[issuer]);
    rules.set_audience(&[audience]);
    let key = jsonwebtoken::DecodingKey::from_secret(secret.as_bytes());
    let data = jsonwebtoken::decode::<serde_json::Value>(token, &key, &rules)?;
    Ok(data.claims.to_string())
}

/// Reads a payload from JSON text with `serde_json::from_str`: an object
/// with the seven fields of the claims, each of its type. The result is
/// what `claims_in_json` names.
#[verifier::external_body]
fn parse_payload(text: &str) -> (out: Option<TokenPayload>)
    ensures
        out matches Some(payload) ==> claims_in_json(text@) == Some(payload@),
        out is None ==> claims_in_json(text@) is None,
{
    let body: serde_json::Value = serde_json::from_str(text).ok()?;
    Some(
        TokenPayload {
            sub: body["sub"].as_i64()?,
            email: body["email"].as_str()?.to_owned(),
            groups: serde_json::from_value(body["groups"].clone()).ok()?,
            exp: body["exp"].as_i64()?,
            iss: body["iss"].as_str()?.to_owned(),
            aud: body["aud"].as_str()?.to_owned(),
            permissions: serde_json::from_value(body["permissions"].clone()).ok()?,
        },
    )
}

/// The text of an error of `jsonwebtoken`, as its `Display` gives it.
#[verifier::external_body]
fn error_text(error: &jsonwebtoken::errors::Error) -> (out: String) {
    error.to_string()
}

/// A rule as the triple of its resource, its group and its bits.
pub fn rule_triple(rule: &Permission) -> (out: (String, i64, u32))
    ensures
        out.0@ == rule.resource@,
        out.1 == rule.group_id,
        out.2 == rule.bits@,
        triple_view(out) == rule@,
{
    (rule.resource.clone(), rule.group_id, rule.bits.bits())
}

/// The rule that a triple of resource, group and bits stands for.
pub fn permission_of(rule: (String, i64, u32)) -> (out: Permission)
    ensures
        out.resource == rule.0,
        out.group_id == rule.1,
        out.bits@ == rule.2,
        out@ == triple_view(rule),
{
    Permission { resource: rule.0, group_id: rule.1, bits: PermissionBits::from_bits(rule.2) }
}

/// The claims as they are written into a token.
pub fn payload_of(claims: &AuthClaims) -> (out: TokenPayload)
    ensures
        out@ == claims@,
{
    let mut groups: Vec<i64> = Vec::new();
    let mut i: usize = 0;
    while i < claims.groups.len()
        invariant
            i <= claims.groups.len(),
            groups@ == claims.groups@.subrange(0, i as int),
        decreases claims.groups.len() - i,
    {
        groups.push(claims.groups[i]);
        assert(groups@ =~= claims.groups@.subrange(0, i + 1));
        i = i + 1;
    }
    assert(groups@ =~= claims.groups@);
    let mut permissions: Vec<(String, i64, u32)> = Vec::new();
    let mut j: usize = 0;
    while j < claims.permissions.len()
        invariant
            j <= claims.permissions.len(),
            permissions@.len() == j,
            forall|k: int| 0 <= k < j ==> triple_view(#[trigger] permissions@[k])
                == claims.permissions@[k]@,
        decreases claims.permissions.len() - j,
    {
        permissions.push(rule_triple(&claims.permissions[j]));
        j = j + 1;
    }
    let out = TokenPayload {
        sub: claims.sub,
        email: claims.email.clone(),
        groups,
        exp: claims.exp,
        iss: claims.iss.clone(),
        aud: claims.aud.clone(),
        permissions,
    };
    assert(out@.permissions =~= claims@.permissions);
    out
}

/// The claims that a payload of a token stands for.
pub fn claims_of(payload: TokenPayload) -> (out: AuthClaims)
    ensures
        out@ == payload@,
{
    let mut permissions: Vec<Permission> = Vec::new();
    let mut j: usize = 0;
    while j < payload.permissions.len()
        invariant
            j <= payload.permissions.len(),
            permissions@.len() == j,
            forall|k: int| 0 <= k < j ==> (#[trigger] permissions@[k])@ == triple_view(
                payload.permissions@[k],
            ),
        decreases payload.permissions.len() - j,
    {
        let rule = &payload.permissions[j];
        permissions.push(permission_of((rule.0.clone(), rule.1, rule.2)));
        j = j + 1;
    }
    let out = AuthClaims {
        sub: payload.sub,
        email: payload.email.clone(),
        groups: payload.groups.clone(),
        exp: payload.exp,
        iss: payload.iss.clone(),
        aud: payload.aud.clone(),
        permissions,
    };
    assert(out@.permissions =~= payload@.permissions);
    out
}

/// Where a token stands at some time. Only a valid token yields claims;
/// an expired token and an invalid one are refused alike.
#[derive(Debug, Clone, Copy, PartialEq, Eq, Structural)]
pub enum TokenState {
    /// Signed with the secret, for the configured issuer and audience, and
    /// not yet expired.
    Valid,
    /// Refused for the time alone: it was valid before its expiry.
    Expired,
    /// Refused for any other reason, at any time.
    Invalid,
}

/// A codec for HS256 tokens: it signs with a secret, and accepts a token
/// only for the issuer and the audience that it was made with.
pub struct JwtService {
    secret: String,
    issuer: String,
    audience: String,
}

impl JwtService {
    pub fn new(secret: String, issuer: String, audience: String) -> (out: Self)
        ensures
            out.secret() == secret@,
            out.issuer() == issuer@,
            out.audience() == audience@,
    {
        Self { secret, issuer, audience }
    }

    /// The secret that tokens are signed with.
    pub closed spec fn secret(&self) -> Seq<char> {
        self.secret@
    }

    /// The only issuer whose tokens are accepted.
    pub closed spec fn issuer(&self) -> Seq<char> {
        self.issuer@
    }

    /// The only audience whose tokens are accepted.
    pub closed spec fn audience(&self) -> Seq<char> {
        self.audience@
    }

    /// Whether claims are valid at the time `now`: issued by the configured
    /// issuer for the configured audience, and not yet expired.
    pub open spec fn spec_valid(&self, claims: ClaimsView, now: i64) -> bool {
        &&& claims.iss == self.issuer()
        &&& claims.aud == self.audience()
        &&& now < claims.exp
    }

    /// The claims that a token carries under this codec's secret, issuer and
    /// audience, whatever the time.
    pub open spec fn spec_carried(&self, token: Seq<char>) -> Option<ClaimsView> {
        match accepted_payload(token, self.secret(), self.issuer(), self.audience()) {
            Some(payload) => claims_in_json(payload),
            None => None,
        }
    }

    /// The claims that decoding a token at the time `now` yields.
    pub open spec fn spec_decode(&self, token: Seq<char>, now: i64) -> Option<ClaimsView> {
        match self.spec_carried(token) {
            Some(claims) => if self.spec_valid(claims, now) {
                Some(claims)
            } else {
                None
            },
            None => None,
        }
    }

    /// Where a token stands at the time `now`.
    pub open spec fn spec_state(&self, token: Seq<char>, now: i64) -> TokenState {
        match self.spec_carried(token) {
            Some(claims) => if claims.iss == self.issuer() && claims.aud == self.audience() {
                if now < claims.exp {
                    TokenState::Valid
                } else {
                    TokenState::Expired
                }
            } else {
                TokenState::Invalid
            },
            None => TokenState::Invalid,
        }
    }

    /// Accepts claims that are valid at the time `now`, and refuses any
    /// others with the one error that every refusal gives.
    pub fn check_claims(&self, claims: AuthClaims, now: i64) -> (out: Result<
        AuthClaims,
        DomainError,
    >)
        ensures
            self.spec_valid(claims@, now) ==> out == Ok::<AuthClaims, DomainError>(claims),
            !self.spec_valid(claims@, now) ==> out == Err::<AuthClaims, DomainError>(
                DomainError::InvalidCredentials,
            ),
    {
        if !str_eq(claims.iss.as_str(), self.issuer.as_str()) {
            return Err(DomainError::InvalidCredentials);
        }
        if !str_eq(claims.aud.as_str(), self.audience.as_str()) {
            return Err(DomainError::InvalidCredentials);
        }
        if now < claims.exp {
            Ok(claims)
        } else {
            Err(DomainError::InvalidCredentials)
        }
    }

    /// The claims that the token carries, whatever the time: its signature
    /// matches the secret, and its payload holds claims.
    pub fn carried_claims(&self, token: &str) -> (out: Option<AuthClaims>)
        ensures
            out matches Some(claims) ==> self.spec_carried(token@) == Some(claims@),
            out is None ==> self.spec_carried(token@) is None,
    {
        match accept_token(
            token,
            self.secret.as_str(),
            self.issuer.as_str(),
            self.audience.as_str(),
        ) {
            Ok(text) => match parse_payload(text.as_str()) {
                Some(payload) => Some(claims_of(payload)),
                None => None,
            },
            Err(_) => None,
        }
    }

    /// Where a token stands at the time `now`.
    pub fn state_at(&self, token: &str, now: i64) -> (out: TokenState)
        ensures
            out == self.spec_state(token@, now),
    {
        match self.carried_claims(token) {
            Some(claims) => {
                if !str_eq(claims.iss.as_str(), self.issuer.as_str()) {
                    TokenState::Invalid
                } else if !str_eq(claims.aud.as_str(), self.audience.as_str()) {
                    TokenState::Invalid
                } else if now < claims.exp {
                    TokenState::Valid
                } else {
                    TokenState::Expired
                }
            },
            None => TokenState::Invalid,
        }
    }

    /// Decodes a token at the time `now`.
    pub fn decode_at(&self, token: &str, now: i64) -> (out: Result<AuthClaims, DomainError>)
        ensures
            match self.spec_decode(token@, now) {
                Some(claims) => out matches Ok(decoded) && decoded@ == claims,
                None => out == Err::<AuthClaims, DomainError>(DomainError::InvalidCredentials),
            },
    {
        match self.carried_claims(token) {
            Some(claims) => self.check_claims(claims, now),
            None => Err(DomainError::InvalidCredentials),
        }
    }
}

/// A token that carries claims is decoded to exactly those claims while
/// they are valid: issued by the configured issuer for the configured
/// audience, and not yet expired.
pub proof fn lemma_decode_of_carried_claims(codec: JwtService, token: Seq<char>, now: i64)
    requires
        codec.spec_carried(token) is Some,
        codec.spec_valid(codec.spec_carried(token)->0, now),
    ensures
        codec.spec_decode(token, now) == codec.spec_carried(token),
{
}

/// A token is refused from the moment of its expiry on, whatever else it
/// carries.
pub proof fn lemma_expired_token_refused(codec: JwtService, token: Seq<char>, now: i64)
    requires
        codec.spec_carried(token) matches Some(claims) && claims.exp <= now,
    ensures
        codec.spec_decode(token, now) is None,
{
}

/// A token whose issuer or audience is not the configured one is refused
/// at any time.
pub proof fn lemma_foreign_token_refused(codec: JwtService, token: Seq<char>, now: i64)
    requires
        codec.spec_carried(token) matches Some(claims) && (claims.iss != codec.issuer()
            || claims.aud != codec.audience()),
    ensures
        codec.spec_decode(token, now) is None,
{
}

/// A token that is decoded at some time was decoded at every earlier time
/// too, to the same claims.
pub proof fn lemma_decode_only_expires(codec: JwtService, token: Seq<char>, earlier: i64, later: i64)
    requires
        earlier <= later,
        codec.spec_decode(token, later) is Some,
    ensures
        codec.spec_decode(token, earlier) == codec.spec_decode(token, later),
{
}

/// Only a valid token yields claims.
pub proof fn lemma_only_valid_yields_claims(codec: JwtService, token: Seq<char>, now: i64)
    ensures
        codec.spec_decode(token, now) is Some <==> codec.spec_state(token, now) == TokenState::Valid,
{
}

/// As time goes on a token moves from valid to expired and nowhere else:
/// an expired token stays expired, and a token is invalid either always
/// or never.
pub proof fn lemma_state_moves_forward(codec: JwtService, token: Seq<char>, earlier: i64, later: i64)
    requires
        earlier <= later,
    ensures
        codec.spec_state(token, earlier) == TokenState::Expired ==> codec.spec_state(token, later)
            == TokenState::Expired,
        codec.spec_state(token, earlier) == TokenState::Invalid <==> codec.spec_state(token, later)
            == TokenState::Invalid,
        codec.spec_state(token, later) == TokenState::Valid ==> codec.spec_state(token, earlier)
            == TokenState::Valid,
{
}

/// A token that carries the claims issued to a user with a time-to-live of
/// zero or less is refused at the moment of issuance and at every moment
/// after it.
pub proof fn lemma_issued_without_time_to_live_refused(
    codec: JwtService,
    token: Seq<char>,
    user: UserWithGroups,
    config: AuthConfig,
    now: i64,
    later: i64,
)
    requires
        codec.spec_carried(token) == Some(spec_claims(user, config, now)),
        config.jwt_ttl_seconds <= 0,
        expiry_in_range(config, now),
        now <= later,
    ensures
        codec.spec_decode(token, later) is None,
{
}

/// Where a token that carries the claims issued to a user is decoded, the
/// claims that come back hold the user's own identifier, e-mail and
/// groups, none added and none lost, and no permissions.
pub proof fn lemma_issued_decodes_to_user(
    codec: JwtService,
    token: Seq<char>,
    user: UserWithGroups,
    config: AuthConfig,
    now: i64,
    at: i64,
)
    requires
        codec.spec_carried(token) == Some(spec_claims(user, config, now)),
        codec.spec_decode(token, at) is Some,
    ensures
        codec.spec_decode(token, at)->0.sub == user.user.id.0,
        codec.spec_decode(token, at)->0.email == user.user.email@,
        codec.spec_decode(token, at)->0.groups == spec_group_ids(user.groups@),
        codec.spec_decode(token, at)->0.permissions.len() == 0,
{
}

impl TokenEncoder for JwtService {
    /// This codec answers with the token that signing the claims under its
    /// secret gives, or with an unexpected error where the signing fails.
    open spec fn may_encode(&self, claims: ClaimsView, answer: Result<String, DomainError>) -> bool {
        match signed_token(claims, self.secret()) {
            Some(token) => answer matches Ok(made) && made@ == token,
            None => answer matches Err(e) && e is Unexpected,
        }
    }

    /// This codec answers with what decoding the token at some time gives.
    open spec fn may_decode(&self, token: Seq<char>, answer: Result<AuthClaims, DomainError>) -> bool {
        exists|now: i64|
            match #[trigger] self.spec_decode(token, now) {
                Some(claims) => answer matches Ok(decoded) && decoded@ == claims,
                None => answer == Err::<AuthClaims, DomainError>(DomainError::InvalidCredentials),
            }
    }

    /// Signs the claims. A failure of the signing is an unexpected error.
    fn encode(&self, claims: &AuthClaims) -> (out: Result<String, DomainError>)
        ensures
            match signed_token(claims@, self.secret()) {
                Some(token) => out matches Ok(made) && made@ == token,
                None => out matches Err(e) && e is Unexpected,
            },
    {
        let payload = payload_of(claims);
        match sign_payload(&payload, self.secret.as_str()) {
            Ok(token) => Ok(token),
            Err(e) => Err(DomainError::Unexpected(error_text(&e))),
        }
    }

    /// Decodes a token at the time that the clock shows. Whatever that
    /// time is, only claims that the token carries, for the configured
    /// issuer and audience, are returned, and every refusal is the same
    /// error.
    fn decode(&self, token: &str) -> (out: Result<AuthClaims, DomainError>)
        ensures
            out matches Ok(claims) ==> self.spec_carried(token@) == Some(claims@)
                && claims.iss@ == self.issuer() && claims.aud@ == self.audience(),
            out matches Err(e) ==> e is InvalidCredentials,
            self.spec_carried(token@) is None ==> out is Err,
    {
        let now = current_timestamp();
        self.decode_at(token, now)
    }
}

} // verus!
