use crate::application::auth_service::AuthClaims;
use crate::application::permission_service::{PermissionService, ADMIN_GROUP_ID};
use crate::domain::permission::{PermissionMethod, PermissionRepository};
use crate::shared::errors::{ApiError, DomainError};
use crate::shared::text::str_eq;
use vstd::prelude::*;

verus! {

/// The operation that a request method asks for: reading for `GET` and
/// `HEAD`, writing for `POST`, `PUT` and `PATCH`, deleting for `DELETE`.
/// Any other method asks for reading, the least of the three.
pub open spec fn spec_map_method(method: Seq<char>) -> PermissionMethod {
    if method == "POST"@ || method == "PUT"@ || method == "PATCH"@ {
        PermissionMethod::Write
    } else if method == "DELETE"@ {
        PermissionMethod::Delete
    } else {
        PermissionMethod::Read
    }
}

/// The operation that a request method asks for.
pub fn map_method(method: &str) -> (out: PermissionMethod)
    ensures
        out == spec_map_method(method@),
{
    if str_eq(method, "POST") || str_eq(method, "PUT") || str_eq(method, "PATCH") {
        PermissionMethod::Write
    } else if str_eq(method, "DELETE") {
        PermissionMethod::Delete
    } else {
        PermissionMethod::Read
    }
}

/// Whether `out` is what the second stage answers, given what the check of
/// access answered: granted access passes; a denial is forbidden, never
/// unauthorized; a fault of the rule store is an internal failure that
/// shows nothing of the fault.
pub open spec fn is_authorization_outcome(
    access: Result<(), DomainError>,
    out: Result<(), ApiError>,
) -> bool {
    match access {
        Ok(_) => out is Ok,
        Err(e) => out matches Err(shown) && shown.spec_shows(e),
    }
}

/// What the second stage answers, given what the check of access answered.
pub fn authorization_outcome(access: Result<(), DomainError>) -> (out: Result<(), ApiError>)
    ensures
        is_authorization_outcome(access, out),
{
    match access {
        Ok(_) => Ok(()),
        Err(e) => Err(ApiError::from(e)),
    }
}

/// Whether `out` may be the answer of the second stage to a request with
/// these claims, this method and this path. Claims must be there: where
/// they are not, the stages were put together wrongly, which is an internal
/// failure and no fault of the caller, and access is not checked. Otherwise
/// access is checked for exactly the groups of the claims, the path as it
/// was received and the operation that the method asks for, and `out` is
/// what the stage answers on that.
pub open spec fn may_authorize<R: PermissionRepository>(
    permissions: PermissionService<R>,
    claims: Option<&AuthClaims>,
    method: Seq<char>,
    path: Seq<char>,
    out: Result<(), ApiError>,
) -> bool {
    match claims {
        Some(c) => exists|access: Result<(), DomainError>|
            permissions.may_ensure(c.groups@, path, spec_map_method(method), access)
                && #[trigger] is_authorization_outcome(access, out),
        None => out matches Err(e) && e is Internal,
    }
}

/// The second stage of the pipeline: checks that the groups in the claims may
/// perform, on the requested path, the operation that the request method
/// asks for. Claims must be there; where they are not, the stages were put
/// together wrongly, and the request fails with an internal failure.
pub fn authorize_request<R: PermissionRepository>(
    permissions: &PermissionService<R>,
    claims: Option<&AuthClaims>,
    method: &str,
    path: &str,
) -> (out: Result<(), ApiError>)
    ensures
        may_authorize(*permissions, claims, method@, path@, out),
        out matches Err(e) ==> (e is Forbidden || e is Internal),
        claims matches Some(c) ==> (out matches Err(e) ==> (e is Forbidden ==> !c.groups@.contains(
            ADMIN_GROUP_ID,
        ))),
{
    let claims = match claims {
        Some(claims) => claims,
        None => {
            return Err(ApiError::Internal);
        },
    };
    let access = permissions.ensure_access(claims.groups.as_slice(), path, map_method(method));
    let ghost answer = access;
    let out = authorization_outcome(access);
    assert(is_authorization_outcome(answer, out));
    out
}

} // verus!
