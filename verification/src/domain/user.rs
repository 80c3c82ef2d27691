use crate::shared::errors::DomainError;
use crate::shared::text::{decimal, decimal_text, str_eq};
use vstd::prelude::*;
use vstd::string::StringExecFns;

verus! {

/// The number under which the user store knows a user.
#[derive(Debug, Clone, Copy, PartialEq, Eq, Structural)]
pub struct UserId(pub i64);

impl UserId {
    /// The number in decimal digits, with a minus sign where it is negative.
    pub open spec fn spec_text(&self) -> Seq<char> {
        if self.0 < 0 {
            seq!['-'] + decimal((-self.0) as nat)
        } else {
            decimal(self.0 as nat)
        }
    }

    /// The number as text.
    pub fn text(&self) -> (out: String)
        ensures
            out@ == self.spec_text(),
    {
        if self.0 < 0 {
            proof {
                reveal_strlit("-");
                assert("-"@ =~= seq!['-']);
            }
            let magnitude: u64 = ((-(self.0 + 1)) as u64) + 1;
            let digits = decimal_text(magnitude);
            let mut out = String::from_str("-");
            out.append(digits.as_str());
            out
        } else {
            decimal_text(self.0 as u64)
        }
    }
}

/// Whether an account may be used.
#[derive(Debug, Clone, Copy, PartialEq, Eq, Structural)]
pub enum UserStatus {
    Active,
    Suspended,
    Disabled,
}

/// A text in lower case, as `str::to_lowercase` gives it.
pub uninterp spec fn lowercased(text: Seq<char>) -> Seq<char>;

/// Calls `str::to_lowercase`, which maps each character to its lower-case
/// form as Unicode defines it. The result is the text that `lowercased`
/// names.
#[verifier::external_body]
fn to_lowercase(text: &str) -> (out: String)
    ensures
        out@ == lowercased(text@),
{
    text.to_lowercase()
}

impl UserStatus {
    /// The status that a lower-case name stands for.
    pub open spec fn spec_parse(name: Seq<char>) -> Option<UserStatus> {
        if name == "active"@ {
            Some(UserStatus::Active)
        } else if name == "suspended"@ {
            Some(UserStatus::Suspended)
        } else if name == "disabled"@ {
            Some(UserStatus::Disabled)
        } else {
            None
        }
    }

    /// The status that a lower-case name stands for.
    pub fn parse(name: &str) -> (out: Option<UserStatus>)
        ensures
            out == Self::spec_parse(name@),
    {
        if str_eq(name, "active") {
            Some(UserStatus::Active)
        } else if str_eq(name, "suspended") {
            Some(UserStatus::Suspended)
        } else if str_eq(name, "disabled") {
            Some(UserStatus::Disabled)
        } else {
            None
        }
    }

    /// Reads a status from its name, in any mix of upper and lower case. A
    /// name that stands for none is refused, and the error carries the name
    /// in lower case.
    pub fn try_from(value: String) -> (out: Result<UserStatus, DomainError>)
        ensures
            match Self::spec_parse(lowercased(value@)) {
                Some(status) => out == Ok::<UserStatus, DomainError>(status),
                None => out matches Err(e) && e is InvalidStatus && e->InvalidStatus_0@
                    == lowercased(value@),
            },
    {
        let lowered = to_lowercase(value.as_str());
        match Self::parse(lowered.as_str()) {
            Some(status) => Ok(status),
            None => Err(DomainError::InvalidStatus(lowered)),
        }
    }

    /// The status's name, with a capital first letter.
    pub open spec fn spec_name(&self) -> Seq<char> {
        match self {
            UserStatus::Active => "Active"@,
            UserStatus::Suspended => "Suspended"@,
            UserStatus::Disabled => "Disabled"@,
        }
    }

    /// The status's name.
    pub fn name(&self) -> (out: String)
        ensures
            out@ == self.spec_name(),
    {
        match self {
            UserStatus::Active => String::from_str("Active"),
            UserStatus::Suspended => String::from_str("Suspended"),
            UserStatus::Disabled => String::from_str("Disabled"),
        }
    }
}

/// A user as the user store holds it. Times are in microseconds since the
/// start of 1970 (UTC).
#[derive(Debug, Clone, PartialEq, Eq)]
pub struct User {
    pub id: UserId,
    pub email: String,
    pub first_name: String,
    pub last_name: String,
    pub status: UserStatus,
    pub last_login: Option<i64>,
    pub created_at: i64,
    pub updated_at: i64,
}

impl User {
    pub fn is_active(&self) -> (out: bool)
        ensures
            out == (self.status == UserStatus::Active),
    {
        self.status == UserStatus::Active
    }
}

/// A user as a plain value.
pub struct UserView {
    pub id: i64,
    pub email: Seq<char>,
    pub first_name: Seq<char>,
    pub last_name: Seq<char>,
    pub status: UserStatus,
    pub last_login: Option<i64>,
    pub created_at: i64,
    pub updated_at: i64,
}

impl View for User {
    type V = UserView;

    open spec fn view(&self) -> UserView {
        UserView {
            id: self.id.0,
            email: self.email@,
            first_name: self.first_name@,
            last_name: self.last_name@,
            status: self.status,
            last_login: self.last_login,
            created_at: self.created_at,
            updated_at: self.updated_at,
        }
    }
}

/// A group that a user belongs to.
#[derive(Debug, Clone, PartialEq, Eq)]
pub struct UserGroup {
    pub id: i64,
    pub name: String,
}

/// The stored form of a user's password.
#[derive(Debug, Clone, PartialEq, Eq)]
pub struct UserCredentials {
    pub password_hash: String,
    pub salt: String,
}

/// A group of a user as a plain value.
pub struct UserGroupView {
    pub id: i64,
    pub name: Seq<char>,
}

impl View for UserGroup {
    type V = UserGroupView;

    open spec fn view(&self) -> UserGroupView {
        UserGroupView { id: self.id, name: self.name@ }
    }
}

/// Credentials as a plain value.
pub struct UserCredentialsView {
    pub password_hash: Seq<char>,
    pub salt: Seq<char>,
}

impl View for UserCredentials {
    type V = UserCredentialsView;

    open spec fn view(&self) -> UserCredentialsView {
        UserCredentialsView { password_hash: self.password_hash@, salt: self.salt@ }
    }
}

/// A user with its groups and credentials as a plain value.
pub struct UserWithGroupsView {
    pub user: UserView,
    pub groups: Seq<UserGroupView>,
    pub credentials: Option<UserCredentialsView>,
}

impl View for UserWithGroups {
    type V = UserWithGroupsView;

    open spec fn view(&self) -> UserWithGroupsView {
        UserWithGroupsView {
            user: self.user@,
            groups: Seq::new(self.groups@.len(), |i: int| self.groups@[i]@),
            credentials: match self.credentials {
                Some(c) => Some(c@),
                None => None,
            },
        }
    }
}

/// A user with the groups that it belongs to and, where they were loaded,
/// its credentials.
#[derive(Debug, Clone, PartialEq, Eq)]
pub struct UserWithGroups {
    pub user: User,
    pub groups: Vec<UserGroup>,
    pub credentials: Option<UserCredentials>,
}

/// What is needed to create a user.
#[derive(Debug, Clone, PartialEq, Eq)]
pub struct CreateUserCommand {
    pub email: String,
    pub first_name: String,
    pub last_name: String,
    pub password_hash: String,
    pub salt: String,
    pub groups: Vec<i64>,
}

/// The user store. Beside each operation stands what the store promises of
/// its answers to it; a store that promises nothing leaves that at `true`.
pub trait UserRepository {
    /// Whether the store may give `answer` when it is asked for the user
    /// with the given identifier.
    open spec fn may_find_by_id(
        &self,
        id: UserId,
        answer: Result<Option<UserWithGroups>, DomainError>,
    ) -> bool {
        true
    }

    /// Whether the store may give `answer` when it is asked for the user
    /// with the given e-mail.
    open spec fn may_find_by_email(
        &self,
        email: Seq<char>,
        answer: Result<Option<UserWithGroups>, DomainError>,
    ) -> bool {
        true
    }

    /// Whether the store may give `answer` when it is asked for all users.
    open spec fn may_list(&self, answer: Result<Vec<UserWithGroups>, DomainError>) -> bool {
        true
    }

    /// Whether the store may give `answer` when it is asked to create the
    /// user of the command.
    open spec fn may_create(
        &self,
        cmd: CreateUserCommand,
        answer: Result<UserWithGroups, DomainError>,
    ) -> bool {
        true
    }

    fn find_by_id(&self, id: &UserId) -> (answer: Result<Option<UserWithGroups>, DomainError>)
        ensures
            self.may_find_by_id(*id, answer),
    ;

    fn find_by_email(&self, email: &str) -> (answer: Result<Option<UserWithGroups>, DomainError>)
        ensures
            self.may_find_by_email(email@, answer),
    ;

    fn list(&self) -> (answer: Result<Vec<UserWithGroups>, DomainError>)
        ensures
            self.may_list(answer),
    ;

    fn create(&self, cmd: CreateUserCommand) -> (answer: Result<UserWithGroups, DomainError>)
        ensures
            self.may_create(cmd, answer),
    ;
}

} // verus!
