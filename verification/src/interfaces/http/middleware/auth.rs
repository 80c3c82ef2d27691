use crate::application::auth_service::{AuthClaims, AuthService, PasswordManager, TokenEncoder};
use crate::domain::user::UserRepository;
use crate::shared::errors::{ApiError, DomainError};
use crate::shared::text::str_strip_prefix;
use vstd::prelude::*;

verus! {

/// What stands before the token in the authorization header.
pub open spec fn bearer_prefix() -> Seq<char> {
    "Bearer "@
}

/// The token that an authorization header carries: what follows the bearer
/// prefix. `None` where the header is absent or does not begin with the
/// prefix.
pub open spec fn spec_bearer_token(header: Option<Seq<char>>) -> Option<Seq<char>> {
    match header {
        Some(value) => if bearer_prefix().is_prefix_of(value) {
            Some(value.subrange(bearer_prefix().len() as int, value.len() as int))
        } else {
            None
        },
        None => None,
    }
}

/// The view of an optional text.
pub open spec fn text_view(text: Option<&str>) -> Option<Seq<char>> {
    match text {
        Some(value) => Some(value@),
        None => None,
    }
}

/// Takes the token out of the authorization header. An absent header and
/// one without the bearer prefix are both turned away as unauthorized, each
/// with its own text.
pub fn bearer_token<'a>(header: Option<&'a str>) -> (out: Result<&'a str, ApiError>)
    ensures
        match spec_bearer_token(text_view(header)) {
            Some(token) => out matches Ok(found) && found@ == token,
            None => out matches Err(e) && e is Unauthorized && e.spec_message() == (if header
                is None {
                "missing authorization header"@
            } else {
                "invalid authorization header"@
            }),
        },
{
    match header {
        None => Err(ApiError::unauthorized("missing authorization header")),
        Some(value) => match str_strip_prefix(value, "Bearer ") {
            Some(token) => Ok(token),
            None => Err(ApiError::unauthorized("invalid authorization header")),
        },
    }
}

/// Whether `out` is what the first stage answers, given what the decoding
/// of the token answered: the claims, unchanged, or unauthorized, whatever
/// the reason for which the token was refused.
pub open spec fn is_authentication_outcome(
    decoded: Result<AuthClaims, DomainError>,
    out: Result<AuthClaims, ApiError>,
) -> bool {
    match decoded {
        Ok(claims) => out matches Ok(passed) && passed == claims,
        Err(_) => out matches Err(e) && e is Unauthorized && e.spec_message() == "invalid token"@,
    }
}

/// What the first stage answers, given what the decoding of the token
/// answered.
pub fn authentication_outcome(decoded: Result<AuthClaims, DomainError>) -> (out: Result<
    AuthClaims,
    ApiError,
>)
    ensures
        is_authentication_outcome(decoded, out),
{
    match decoded {
        Ok(claims) => Ok(claims),
        Err(_) => Err(ApiError::unauthorized("invalid token")),
    }
}

/// Whether `out` may be the answer of the first stage to a request with
/// this authorization header. Without a well-formed header the request is
/// turned away as unauthorized. Otherwise exactly the text after the bearer
/// prefix is decoded, and `out` is what the stage answers on that: the
/// claims that the decoding gave, or unauthorized where it refused the
/// token.
pub open spec fn may_authenticate<U: UserRepository, P: PasswordManager, T: TokenEncoder>(
    auth: AuthService<U, P, T>,
    header: Option<Seq<char>>,
    out: Result<AuthClaims, ApiError>,
) -> bool {
    match spec_bearer_token(header) {
        Some(token) => exists|decoded: Result<AuthClaims, DomainError>|
            auth.may_read(token, decoded) && #[trigger] is_authentication_outcome(decoded, out),
        None => out matches Err(e) && e is Unauthorized && e.spec_message() == (if header is None {
            "missing authorization header"@
        } else {
            "invalid authorization header"@
        }),
    }
}

/// The first stage of the pipeline before every protected request: takes the
/// bearer token out of the authorization header and has it decoded. A
/// request without a well-formed header is turned away before anything is
/// decoded, and every failure of this stage is unauthorized.
pub fn authenticate_request<U: UserRepository, P: PasswordManager, T: TokenEncoder>(
    auth: &AuthService<U, P, T>,
    header: Option<&str>,
) -> (out: Result<AuthClaims, ApiError>)
    ensures
        may_authenticate(*auth, text_view(header), out),
        out matches Err(e) ==> e is Unauthorized,
        out matches Err(e) ==> (spec_bearer_token(text_view(header)) is Some ==> e.spec_message()
            == "invalid token"@),
{
    let token = match bearer_token(header) {
        Ok(token) => token,
        Err(e) => {
            return Err(e);
        },
    };
    let decoded = auth.decode(token);
    let ghost answer = decoded;
    let out = authentication_outcome(decoded);
    assert(is_authentication_outcome(answer, out));
    out
}

} // verus!
