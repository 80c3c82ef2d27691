use crate::application::auth_service::{AuthService, AuthToken, PasswordManager, TokenEncoder};
use crate::domain::user::UserRepository;
use crate::shared::errors::{ApiError, DomainError};
use vstd::prelude::*;

verus! {

/// What a caller sends to log in.
#[derive(Debug, Clone, PartialEq, Eq)]
pub struct LoginRequest {
    pub email: String,
    pub password: String,
}

/// What a caller who has logged in gets back.
#[derive(Debug, Clone, PartialEq, Eq)]
pub struct LoginResponse {
    pub access_token: String,
}

/// Whether `out` is what the caller is shown of a login, given how the
/// login went: the token, or the error as it is shown to callers.
pub open spec fn is_login_shown(
    result: Result<AuthToken, DomainError>,
    out: Result<LoginResponse, ApiError>,
) -> bool {
    match result {
        Ok(token) => out matches Ok(response) && response.access_token == token.access_token,
        Err(e) => out matches Err(shown) && shown.spec_shows(e),
    }
}

/// What the caller is shown of a login, given how the login went.
pub fn login_outcome(result: Result<AuthToken, DomainError>) -> (out: Result<
    LoginResponse,
    ApiError,
>)
    ensures
        is_login_shown(result, out),
{
    match result {
        Ok(token) => Ok(LoginResponse { access_token: token.access_token }),
        Err(e) => Err(ApiError::from(e)),
    }
}

/// Logs a caller in with the e-mail and the password of the request, and
/// shows how the login went. The caller is told of invalid credentials or
/// of an internal failure, and of nothing else.
pub fn login<U: UserRepository, P: PasswordManager, T: TokenEncoder>(
    auth: &AuthService<U, P, T>,
    payload: LoginRequest,
) -> (out: Result<LoginResponse, ApiError>)
    ensures
        exists|result: Result<AuthToken, DomainError>|
            auth.may_login(payload.email@, payload.password@, result) && #[trigger] is_login_shown(
                result,
                out,
            ),
        out matches Err(e) ==> e is Internal || (e is Unauthorized && e.spec_message()
            == "invalid credentials"@),
{
    let result = auth.login(payload.email.as_str(), payload.password.as_str());
    let ghost went = result;
    let out = login_outcome(result);
    assert(is_login_shown(went, out));
    out
}

} // verus!
