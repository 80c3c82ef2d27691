use crate::domain::user::{CreateUserCommand, UserId, UserRepository, UserWithGroups};
use crate::shared::errors::DomainError;
use vstd::prelude::*;

verus! {

/// `serde_json::Value`, a row of the warehouse's answer. It is carried
/// through to the caller, and nothing is known of what it holds.
#[verifier::external_type_specification]
#[verifier::external_body]
pub struct ExJsonValue(serde_json::Value);

/// A statement for the warehouse, with the greatest number of rows wanted.
#[derive(Debug, Clone, PartialEq, Eq)]
pub struct WarehouseQuery {
    pub statement: String,
    pub limit: Option<u64>,
}

/// The warehouse of user data. It answers a query with rows of JSON.
pub trait UserWarehouse {
    /// Whether the warehouse may give `answer` to the query. A warehouse
    /// says here what it promises of its answers; one that promises nothing
    /// leaves that at `true`.
    open spec fn may_execute(
        &self,
        query: WarehouseQuery,
        answer: Result<Vec<serde_json::Value>, DomainError>,
    ) -> bool {
        true
    }

    fn execute(&self, query: WarehouseQuery) -> (answer: Result<
        Vec<serde_json::Value>,
        DomainError,
    >)
        ensures
            self.may_execute(query, answer),
    ;
}

/// Whether `out` is what finding a user answers, given what the store
/// answered: the user; not found, where the store does not know the user;
/// or the store's own error.
pub open spec fn is_found_user(
    found: Result<Option<UserWithGroups>, DomainError>,
    out: Result<UserWithGroups, DomainError>,
) -> bool {
    match found {
        Ok(Some(user)) => out matches Ok(u) && u == user,
        Ok(None) => out matches Err(e) && e is UserNotFound,
        Err(fault) => out matches Err(e) && e == fault,
    }
}

/// What finding a user by its identifier answers, given what the store
/// answered: a user that the store does not know is not found.
pub fn found_user(found: Result<Option<UserWithGroups>, DomainError>) -> (out: Result<
    UserWithGroups,
    DomainError,
>)
    ensures
        is_found_user(found, out),
{
    match found {
        Ok(Some(user)) => Ok(user),
        Ok(None) => Err(DomainError::UserNotFound),
        Err(fault) => Err(fault),
    }
}

/// Lists, finds and creates users in the user store, and queries the
/// warehouse.
pub struct UserService<R: UserRepository, W: UserWarehouse> {
    repo: R,
    warehouse: W,
}

impl<R: UserRepository, W: UserWarehouse> UserService<R, W> {
    pub fn new(repo: R, warehouse: W) -> (out: Self)
        ensures
            out.repo() == repo,
            out.warehouse() == warehouse,
    {
        Self { repo, warehouse }
    }

    /// The store that the service asks.
    pub closed spec fn repo(&self) -> R {
        self.repo
    }

    /// The warehouse that the service asks.
    pub closed spec fn warehouse(&self) -> W {
        self.warehouse
    }

    /// Whether `out` may be the answer to `get_user`: it is what finding a
    /// user answers on something that the store may answer when it is asked
    /// for exactly this identifier.
    pub open spec fn may_get_user(&self, id: UserId, out: Result<UserWithGroups, DomainError>) -> bool {
        exists|found: Result<Option<UserWithGroups>, DomainError>|
            self.repo().may_find_by_id(id, found) && #[trigger] is_found_user(found, out)
    }

    /// All users: what the store answers when it is asked for all of them.
    pub fn list_users(&self) -> (out: Result<Vec<UserWithGroups>, DomainError>)
        ensures
            self.repo().may_list(out),
    {
        self.repo.list()
    }

    /// The user with the given identifier, as the store holds it; not
    /// found, where the store does not know it.
    pub fn get_user(&self, id: UserId) -> (out: Result<UserWithGroups, DomainError>)
        ensures
            self.may_get_user(id, out),
    {
        let found = self.repo.find_by_id(&id);
        let ghost answer = found;
        let out = found_user(found);
        assert(is_found_user(answer, out));
        out
    }

    /// Creates a user: what the store answers when it is asked to create
    /// the user of the command.
    pub fn create_user(&self, cmd: CreateUserCommand) -> (out: Result<UserWithGroups, DomainError>)
        ensures
            self.repo().may_create(cmd, out),
    {
        self.repo.create(cmd)
    }

    /// The rows with which the warehouse answers the query.
    pub fn query_user_data(&self, query: WarehouseQuery) -> (out: Result<
        Vec<serde_json::Value>,
        DomainError,
    >)
        ensures
            self.warehouse().may_execute(query, out),
    {
        self.warehouse.execute(query)
    }
}

} // verus!
