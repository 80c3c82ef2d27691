use crate::application::auth_service::{AuthClaims, AuthService, PasswordManager, TokenEncoder};
use crate::application::permission_service::PermissionService;
use crate::domain::permission::PermissionRepository;
use crate::domain::user::UserRepository;
use crate::interfaces::http::middleware::auth::{
    authenticate_request, may_authenticate, spec_bearer_token, text_view,
};
use crate::interfaces::http::middleware::permission::{authorize_request, may_authorize};
use crate::shared::errors::ApiError;
use vstd::prelude::*;

verus! {

/// Whether `out` is what the two stages give in their order, given what
/// each answered: the first stage's error; else the second stage's error;
/// else the claims that the first stage gave. Where the first stage fails,
/// the second plays no part.
pub open spec fn is_guard_outcome(
    first: Result<AuthClaims, ApiError>,
    second: Result<(), ApiError>,
    out: Result<AuthClaims, ApiError>,
) -> bool {
    match first {
        Err(e) => out matches Err(shown) && shown == e,
        Ok(claims) => match second {
            Err(e) => out matches Err(shown) && shown == e,
            Ok(_) => out matches Ok(passed) && passed == claims,
        },
    }
}

/// Whether `out` may be the answer of the pipeline to a request: the first
/// stage is asked with exactly this header; where it gives claims, the
/// second stage is asked with exactly those claims, this method and this
/// path; and `out` is what the two give in their order.
pub open spec fn may_guard<
    U: UserRepository,
    P: PasswordManager,
    T: TokenEncoder,
    R: PermissionRepository,
>(
    auth: AuthService<U, P, T>,
    permissions: PermissionService<R>,
    header: Option<Seq<char>>,
    method: Seq<char>,
    path: Seq<char>,
    out: Result<AuthClaims, ApiError>,
) -> bool {
    exists|first: Result<AuthClaims, ApiError>, second: Result<(), ApiError>|
        {
            &&& may_authenticate(auth, header, first)
            &&& first is Ok ==> may_authorize(permissions, Some(&first->Ok_0), method, path, second)
            &&& #[trigger] is_guard_outcome(first, second, out)
        }
}

/// The pipeline before every protected request, in the order of its two
/// stages: first the caller is authenticated by the bearer token of the
/// authorization header, then the claims of the token are checked against
/// the permission rules for the request's method and path. Only a request
/// that passes both reaches its handler, with the claims.
///
/// A request without a well-formed authorization header is turned away as
/// unauthorized, whatever its method and path. A request is turned away as
/// forbidden only after it has been authenticated.
pub fn guard_request<U: UserRepository, P: PasswordManager, T: TokenEncoder, R: PermissionRepository>(
    auth: &AuthService<U, P, T>,
    permissions: &PermissionService<R>,
    header: Option<&str>,
    method: &str,
    path: &str,
) -> (out: Result<AuthClaims, ApiError>)
    ensures
        may_guard(*auth, *permissions, text_view(header), method@, path@, out),
        spec_bearer_token(text_view(header)) is None ==> (out matches Err(e) && e is Unauthorized),
        out matches Err(e) ==> (e is Unauthorized || e is Forbidden || e is Internal),
        out matches Err(e) ==> ((e is Forbidden || e is Internal) ==> spec_bearer_token(
            text_view(header),
        ) is Some),
{
    let first = authenticate_request(auth, header);
    let ghost first_answer = first;
    let claims = match first {
        Ok(claims) => claims,
        Err(e) => {
            let out = Err(e);
            proof {
                let second: Result<(), ApiError> = arbitrary();
                assert(is_guard_outcome(first_answer, second, out));
            }
            return out;
        },
    };
    let second = authorize_request(permissions, Some(&claims), method, path);
    let ghost second_answer = second;
    let out = match second {
        Ok(_) => Ok(claims),
        Err(e) => Err(e),
    };
    assert(is_guard_outcome(first_answer, second_answer, out));
    out
}

} // verus!
