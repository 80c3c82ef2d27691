use crate::application::auth_service::PasswordManager;
use crate::application::user_service::{UserService, UserWarehouse};
use crate::domain::user::{
    CreateUserCommand, UserGroup, UserGroupView, UserId, UserRepository, UserWithGroups,
};
use crate::shared::errors::{ApiError, DomainError};
use vstd::prelude::*;

verus! {

/// A user as it is shown to a caller.
#[derive(Debug, Clone, PartialEq, Eq)]
pub struct UserResponse {
    pub id: i64,
    pub email: String,
    pub first_name: String,
    pub last_name: String,
    pub status: String,
    pub groups: Vec<GroupResponse>,
}

/// A group of a user as it is shown to a caller.
#[derive(Debug, Clone, PartialEq, Eq)]
pub struct GroupResponse {
    pub id: i64,
    pub name: String,
}

/// What a caller sends to create a user.
#[derive(Debug, Clone, PartialEq, Eq)]
pub struct CreateUserRequest {
    pub email: String,
    pub first_name: String,
    pub last_name: String,
    pub password: String,
    pub groups: Vec<i64>,
}

/// The groups as they are shown, as plain values.
pub open spec fn shown_groups(groups: Seq<GroupResponse>) -> Seq<UserGroupView> {
    Seq::new(groups.len(), |i: int| UserGroupView { id: groups[i].id, name: groups[i].name@ })
}

/// Whether a response shows a user: its identifier, e-mail, names, the
/// name of its status and its groups. Credentials and times are not shown.
pub open spec fn shows(response: UserResponse, user: UserWithGroups) -> bool {
    &&& response.id == user.user.id.0
    &&& response.email@ == user.user.email@
    &&& response.first_name@ == user.user.first_name@
    &&& response.last_name@ == user.user.last_name@
    &&& response.status@ == user.user.status.spec_name()
    &&& shown_groups(response.groups@) == user@.groups
}

/// The groups of a user as they are shown to a caller, in their order.
pub fn group_responses(groups: &Vec<UserGroup>) -> (out: Vec<GroupResponse>)
    ensures
        shown_groups(out@) == Seq::new(groups@.len(), |i: int| groups@[i]@),
{
    let mut out: Vec<GroupResponse> = Vec::new();
    let mut i: usize = 0;
    while i < groups.len()
        invariant
            i <= groups.len(),
            out@.len() == i,
            forall|j: int|
                0 <= j < i ==> (#[trigger] out@[j]).id == groups@[j].id && out@[j].name@
                    == groups@[j].name@,
        decreases groups.len() - i,
    {
        out.push(GroupResponse { id: groups[i].id, name: groups[i].name.clone() });
        i = i + 1;
    }
    assert(shown_groups(out@) =~= Seq::new(groups@.len(), |i: int| groups@[i]@));
    out
}

impl UserResponse {
    /// Shows a user to a caller.
    pub fn of(value: &UserWithGroups) -> (out: UserResponse)
        ensures
            shows(out, *value),
    {
        UserResponse {
            id: value.user.id.0,
            email: value.user.email.clone(),
            first_name: value.user.first_name.clone(),
            last_name: value.user.last_name.clone(),
            status: value.user.status.name(),
            groups: group_responses(&value.groups),
        }
    }

    /// Shows a user to a caller.
    pub fn from(value: UserWithGroups) -> (out: UserResponse)
        ensures
            shows(out, value),
    {
        UserResponse::of(&value)
    }
}

/// The users as they are shown to a caller, in their order.
pub fn user_responses(users: &Vec<UserWithGroups>) -> (out: Vec<UserResponse>)
    ensures
        out@.len() == users@.len(),
        forall|i: int| 0 <= i < users@.len() ==> shows(#[trigger] out@[i], users@[i]),
{
    let mut out: Vec<UserResponse> = Vec::new();
    let mut i: usize = 0;
    while i < users.len()
        invariant
            i <= users.len(),
            out@.len() == i,
            forall|j: int| 0 <= j < i ==> shows(#[trigger] out@[j], users@[j]),
        decreases users.len() - i,
    {
        out.push(UserResponse::of(&users[i]));
        i = i + 1;
    }
    out
}

/// Whether `out` is what the caller is shown of a list of users, given
/// what the user store answered: every user as it is shown, in the store's
/// order, or the error as it is shown to callers.
pub open spec fn is_user_listing(
    listed: Result<Vec<UserWithGroups>, DomainError>,
    out: Result<Vec<UserResponse>, ApiError>,
) -> bool {
    match listed {
        Ok(found) => out matches Ok(shown) && shown@.len() == found@.len() && forall|i: int|
            0 <= i < found@.len() ==> shows(#[trigger] shown@[i], found@[i]),
        Err(e) => out matches Err(shown) && shown.spec_shows(e),
    }
}

/// Whether `out` is what the caller is shown of one user, given what the
/// user service answered: the user as it is shown, or the error as it is
/// shown to callers.
pub open spec fn is_user_shown(
    found: Result<UserWithGroups, DomainError>,
    out: Result<UserResponse, ApiError>,
) -> bool {
    match found {
        Ok(user) => out matches Ok(shown) && shows(shown, user),
        Err(e) => out matches Err(shown) && shown.spec_shows(e),
    }
}

/// All users of the store, as they are shown to a caller.
pub fn list_users<R: UserRepository, W: UserWarehouse>(users: &UserService<R, W>) -> (out: Result<
    Vec<UserResponse>,
    ApiError,
>)
    ensures
        exists|listed: Result<Vec<UserWithGroups>, DomainError>|
            users.repo().may_list(listed) && #[trigger] is_user_listing(listed, out),
{
    let listed = users.list_users();
    let ghost answer = listed;
    let out = match listed {
        Ok(found) => Ok(user_responses(&found)),
        Err(e) => Err(ApiError::from(e)),
    };
    assert(is_user_listing(answer, out));
    out
}

/// The user with exactly the given identifier, as it is shown to a
/// caller; not found, where the store does not know it.
pub fn get_user<R: UserRepository, W: UserWarehouse>(users: &UserService<R, W>, id: i64) -> (out:
    Result<UserResponse, ApiError>)
    ensures
        exists|found: Result<UserWithGroups, DomainError>|
            users.may_get_user(UserId(id), found) && #[trigger] is_user_shown(found, out),
{
    let found = users.get_user(UserId(id));
    let ghost answer = found;
    let out = match found {
        Ok(user) => Ok(UserResponse::from(user)),
        Err(e) => Err(ApiError::from(e)),
    };
    assert(is_user_shown(answer, out));
    out
}

/// A fresh random salt, as `SaltString::generate` draws it from the
/// system's source of randomness. Nothing is promised of the value, and the
/// call does not return where that source fails.
#[verifier::external_body]
fn generate_salt() -> (out: String) {
    argon2::password_hash::SaltString::generate(&mut rand_core::OsRng).to_string()
}

/// The command that creates the user of a request, with the hash of the
/// request's password and the salt that it was hashed under.
pub open spec fn spec_create_command(
    payload: CreateUserRequest,
    password_hash: String,
    salt: String,
) -> CreateUserCommand {
    CreateUserCommand {
        email: payload.email,
        first_name: payload.first_name,
        last_name: payload.last_name,
        password_hash,
        salt,
        groups: payload.groups,
    }
}

/// The command that creates the user of a request, with the hash of the
/// request's password and the salt that it was hashed under.
pub fn create_command(payload: CreateUserRequest, password_hash: String, salt: String) -> (out:
    CreateUserCommand)
    ensures
        out == spec_create_command(payload, password_hash, salt),
{
    CreateUserCommand {
        email: payload.email,
        first_name: payload.first_name,
        last_name: payload.last_name,
        password_hash,
        salt,
        groups: payload.groups,
    }
}

/// Whether `out` is what the caller is shown of the creation of a user,
/// given what the hashing of the password and the user store answered: an
/// internal failure where the password could not be hashed, whatever the
/// store would have answered; else the created user as it is shown, or the
/// store's error as it is shown to callers.
pub open spec fn is_creation_outcome(
    hashed: Result<String, String>,
    created: Result<UserWithGroups, DomainError>,
    out: Result<UserResponse, ApiError>,
) -> bool {
    match hashed {
        Err(_) => out matches Err(shown) && shown is Internal,
        Ok(_) => is_user_shown(created, out),
    }
}

/// Whether `out` may be the answer to the creation of the user of a
/// request under the given salt: the password of the request is hashed
/// under exactly this salt, and, where that succeeds, the store is asked to
/// create exactly the user of the request with that hash and this salt.
pub open spec fn may_create_salted<R: UserRepository, W: UserWarehouse, P: PasswordManager>(
    users: UserService<R, W>,
    passwords: P,
    payload: CreateUserRequest,
    salt: String,
    out: Result<UserResponse, ApiError>,
) -> bool {
    exists|hashed: Result<String, String>, created: Result<UserWithGroups, DomainError>|
        {
            &&& passwords.may_hash(payload.password@, salt@, hashed)
            &&& hashed is Ok ==> users.repo().may_create(
                spec_create_command(payload, hashed->Ok_0, salt),
                created,
            )
            &&& #[trigger] is_creation_outcome(hashed, created, out)
        }
}

/// Creates the user of a request under the given salt: hashes the
/// password, has the user created, and shows it. A password that cannot be
/// hashed is an internal failure.
pub fn create_user_salted<R: UserRepository, W: UserWarehouse, P: PasswordManager>(
    users: &UserService<R, W>,
    passwords: &P,
    payload: CreateUserRequest,
    salt: String,
) -> (out: Result<UserResponse, ApiError>)
    ensures
        may_create_salted(*users, *passwords, payload, salt, out),
{
    let hashed = passwords.hash(payload.password.as_str(), salt.as_str());
    let ghost hashed_answer = hashed;
    let password_hash = match hashed {
        Ok(hash) => hash,
        Err(_) => {
            let out = Err(ApiError::Internal);
            proof {
                let created: Result<UserWithGroups, DomainError> = arbitrary();
                assert(is_creation_outcome(hashed_answer, created, out));
            }
            return out;
        },
    };
    let created = users.create_user(create_command(payload, password_hash, salt));
    let ghost created_answer = created;
    let out = match created {
        Ok(user) => Ok(UserResponse::from(user)),
        Err(e) => Err(ApiError::from(e)),
    };
    assert(is_creation_outcome(hashed_answer, created_answer, out));
    out
}

/// Creates the user of a request under a fresh random salt: the result is
/// what the creation under some salt answers.
pub fn create_user<R: UserRepository, W: UserWarehouse, P: PasswordManager>(
    users: &UserService<R, W>,
    passwords: &P,
    payload: CreateUserRequest,
) -> (out: Result<UserResponse, ApiError>)
    ensures
        exists|salt: String| #[trigger] may_create_salted(*users, *passwords, payload, salt, out),
{
    let salt = generate_salt();
    let ghost drawn = salt;
    let out = create_user_salted(users, passwords, payload, salt);
    assert(may_create_salted(*users, *passwords, payload, drawn, out));
    out
}

} // verus!
