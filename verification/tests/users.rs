use admin_backend::application::user_service::{found_user, UserService, UserWarehouse, WarehouseQuery};
use admin_backend::domain::group::Group;
use admin_backend::domain::user::{
    CreateUserCommand, User, UserCredentials, UserGroup, UserId, UserRepository, UserStatus,
    UserWithGroups,
};
use admin_backend::shared::errors::DomainError;

fn user(id: i64, status: UserStatus) -> UserWithGroups {
    UserWithGroups {
        user: User {
            id: UserId(id),
            email: format!("u{}@example.com", id),
            first_name: "U".to_string(),
            last_name: id.to_string(),
            status,
            last_login: Some(5),
            created_at: 1,
            updated_at: 2,
        },
        groups: vec![UserGroup { id: 3, name: "analysts".to_string() }],
        credentials: None,
    }
}

struct Users {
    known: Vec<UserWithGroups>,
}

impl UserRepository for Users {
    fn find_by_id(&self, id: &UserId) -> Result<Option<UserWithGroups>, DomainError> {
        if id.0 < 0 {
            return Err(DomainError::Unexpected("bad id".to_string()));
        }
        Ok(self.known.iter().find(|u| u.user.id == *id).cloned())
    }

    fn find_by_email(&self, email: &str) -> Result<Option<UserWithGroups>, DomainError> {
        Ok(self.known.iter().find(|u| u.user.email == email).cloned())
    }

    fn list(&self) -> Result<Vec<UserWithGroups>, DomainError> {
        Ok(self.known.clone())
    }

    fn create(&self, cmd: CreateUserCommand) -> Result<UserWithGroups, DomainError> {
        let mut made = user(100, UserStatus::Active);
        made.user.email = cmd.email;
        made.credentials =
            Some(UserCredentials { password_hash: cmd.password_hash, salt: cmd.salt });
        Ok(made)
    }
}

struct Warehouse;

impl UserWarehouse for Warehouse {
    fn execute(&self, query: WarehouseQuery) -> Result<Vec<serde_json::Value>, DomainError> {
        Ok(vec![serde_json::Value::from(query.statement), serde_json::Value::from(query.limit)])
    }
}

fn service() -> UserService<Users, Warehouse> {
    UserService::new(
        Users { known: vec![user(1, UserStatus::Active), user(2, UserStatus::Disabled)] },
        Warehouse,
    )
}

#[test]
fn user_identifier_is_written_in_decimal() {
    assert_eq!(UserId(0).text(), "0");
    assert_eq!(UserId(42).text(), "42");
    assert_eq!(UserId(-1).text(), "-1");
    assert_eq!(UserId(-120).text(), "-120");
    assert_eq!(UserId(i64::MAX).text(), "9223372036854775807");
    assert_eq!(UserId(i64::MIN).text(), "-9223372036854775808");
}

#[test]
fn status_is_read_in_any_case() {
    assert_eq!(UserStatus::try_from("active".to_string()), Ok(UserStatus::Active));
    assert_eq!(UserStatus::try_from("ACTIVE".to_string()), Ok(UserStatus::Active));
    assert_eq!(UserStatus::try_from("Suspended".to_string()), Ok(UserStatus::Suspended));
    assert_eq!(UserStatus::try_from("dIsAbLeD".to_string()), Ok(UserStatus::Disabled));
}

#[test]
fn unknown_status_is_refused_with_its_name_in_lower_case() {
    assert_eq!(
        UserStatus::try_from("Deleted".to_string()),
        Err(DomainError::InvalidStatus("deleted".to_string()))
    );
    assert_eq!(
        UserStatus::try_from(String::new()),
        Err(DomainError::InvalidStatus(String::new()))
    );
    assert_eq!(
        UserStatus::try_from(" active".to_string()),
        Err(DomainError::InvalidStatus(" active".to_string()))
    );
    assert_eq!(
        UserStatus::try_from("ÄCTIVE".to_string()),
        Err(DomainError::InvalidStatus("äctive".to_string()))
    );
}

#[test]
fn status_names_in_lower_case_are_parsed() {
    assert_eq!(UserStatus::parse("active"), Some(UserStatus::Active));
    assert_eq!(UserStatus::parse("suspended"), Some(UserStatus::Suspended));
    assert_eq!(UserStatus::parse("disabled"), Some(UserStatus::Disabled));
    assert_eq!(UserStatus::parse("Active"), None);
    assert_eq!(UserStatus::parse(""), None);
}

#[test]
fn status_has_its_name() {
    assert_eq!(UserStatus::Active.name(), "Active");
    assert_eq!(UserStatus::Suspended.name(), "Suspended");
    assert_eq!(UserStatus::Disabled.name(), "Disabled");
}

#[test]
fn only_active_users_are_active() {
    assert!(user(1, UserStatus::Active).user.is_active());
    assert!(!user(1, UserStatus::Suspended).user.is_active());
    assert!(!user(1, UserStatus::Disabled).user.is_active());
}

#[test]
fn user_that_is_not_known_is_not_found() {
    assert_eq!(service().get_user(UserId(1)), Ok(user(1, UserStatus::Active)));
    assert_eq!(service().get_user(UserId(9)), Err(DomainError::UserNotFound));
    assert_eq!(
        service().get_user(UserId(-1)),
        Err(DomainError::Unexpected("bad id".to_string()))
    );
    assert_eq!(found_user(Ok(None)), Err(DomainError::UserNotFound));
    assert_eq!(found_user(Ok(Some(user(3, UserStatus::Active)))), Ok(user(3, UserStatus::Active)));
    assert_eq!(found_user(Err(DomainError::PermissionDenied)), Err(DomainError::PermissionDenied));
}

#[test]
fn users_are_listed_and_created_by_the_store() {
    assert_eq!(service().list_users().unwrap().len(), 2);
    let made = service()
        .create_user(CreateUserCommand {
            email: "new@example.com".to_string(),
            first_name: "N".to_string(),
            last_name: "E".to_string(),
            password_hash: "h".to_string(),
            salt: "s".to_string(),
            groups: vec![1],
        })
        .unwrap();
    assert_eq!(made.user.email, "new@example.com");
    assert_eq!(
        made.credentials,
        Some(UserCredentials { password_hash: "h".to_string(), salt: "s".to_string() })
    );
}

#[test]
fn warehouse_is_asked_with_the_query() {
    let rows = service()
        .query_user_data(WarehouseQuery { statement: "SELECT 1".to_string(), limit: Some(3) })
        .unwrap();
    assert_eq!(rows, vec![serde_json::Value::from("SELECT 1"), serde_json::Value::from(3u64)]);
}

#[test]
fn group_holds_its_fields() {
    let group = Group { id: 2, name: "admins".to_string(), description: None };
    assert_eq!(group.clone(), group);
    assert_eq!(group.id, 2);
}
