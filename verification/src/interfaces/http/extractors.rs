use crate::application::auth_service::AuthClaims;
use crate::shared::errors::ApiError;
use vstd::prelude::*;

verus! {

/// The claims of the caller of a protected request, for its handler.
#[derive(Debug, Clone, PartialEq, Eq)]
pub struct AuthContext(pub AuthClaims);

impl AuthContext {
    /// Takes the claims that the first stage of the pipeline left with the
    /// request. Where there are none, the request is turned away as
    /// unauthorized.
    pub fn from_request_parts(claims: Option<AuthClaims>) -> (out: Result<AuthContext, ApiError>)
        ensures
            match claims {
                Some(found) => out matches Ok(context) && context.0 == found,
                None => out matches Err(e) && e is Unauthorized && e.spec_message()
                    == "missing auth context"@,
            },
    {
        match claims {
            Some(found) => Ok(AuthContext(found)),
            None => Err(ApiError::unauthorized("missing auth context")),
        }
    }
}

} // verus!
