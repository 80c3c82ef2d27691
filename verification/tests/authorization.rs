use admin_backend::application::permission_service::{
    access_outcome, decide_access, find_grant, has_admin_group, PermissionService,
    ADMIN_GROUP_ID,
};
use admin_backend::domain::permission::{
    Permission, PermissionBits, PermissionMethod, PermissionRepository,
};
use admin_backend::shared::errors::DomainError;

struct FixedRules {
    rules: Vec<Permission>,
}

impl PermissionRepository for FixedRules {
    fn find_permissions_for_groups(
        &self,
        group_ids: &[i64],
    ) -> Result<Vec<Permission>, DomainError> {
        Ok(self.rules.iter().filter(|r| group_ids.contains(&r.group_id)).cloned().collect())
    }
}

struct BrokenStore {
    error: DomainError,
}

impl PermissionRepository for BrokenStore {
    fn find_permissions_for_groups(
        &self,
        _group_ids: &[i64],
    ) -> Result<Vec<Permission>, DomainError> {
        Err(self.error.clone())
    }
}

fn rule(resource: &str, group_id: i64, bits: PermissionBits) -> Permission {
    Permission { resource: resource.to_string(), group_id, bits }
}

#[test]
fn admin_group_is_two() {
    assert_eq!(ADMIN_GROUP_ID, 2);
}

#[test]
fn admin_override_without_any_rule() {
    let service = PermissionService::new(FixedRules { rules: vec![] });
    assert_eq!(service.ensure_access(&[ADMIN_GROUP_ID], "/anything", PermissionMethod::Delete), Ok(()));
    assert_eq!(service.ensure_access(&[7, ADMIN_GROUP_ID], "/anything", PermissionMethod::Write), Ok(()));
}

#[test]
fn admin_override_where_rules_grant_less() {
    let service = PermissionService::new(FixedRules {
        rules: vec![rule("/reports*", ADMIN_GROUP_ID, PermissionBits::read())],
    });
    assert_eq!(service.ensure_access(&[ADMIN_GROUP_ID], "/reports/1", PermissionMethod::Delete), Ok(()));
    assert_eq!(service.ensure_access(&[ADMIN_GROUP_ID], "/elsewhere", PermissionMethod::Delete), Ok(()));
}

#[test]
fn read_rule_denies_write_and_grants_read() {
    let group = 5;
    let service = PermissionService::new(FixedRules {
        rules: vec![rule("/reports*", group, PermissionBits::read())],
    });
    assert_eq!(
        service.ensure_access(&[group], "/reports/1", PermissionMethod::Write),
        Err(DomainError::PermissionDenied)
    );
    assert_eq!(service.ensure_access(&[group], "/reports/1", PermissionMethod::Read), Ok(()));
    assert_eq!(
        service.ensure_access(&[group], "/users/1", PermissionMethod::Read),
        Err(DomainError::PermissionDenied)
    );
}

#[test]
fn no_groups_and_no_rules_is_a_denial() {
    let service = PermissionService::new(FixedRules { rules: vec![] });
    assert_eq!(
        service.ensure_access(&[], "/reports/1", PermissionMethod::Read),
        Err(DomainError::PermissionDenied)
    );
}

#[test]
fn rules_of_other_groups_do_not_count() {
    let service = PermissionService::new(FixedRules {
        rules: vec![rule("/reports*", 9, PermissionBits::full())],
    });
    assert_eq!(
        service.ensure_access(&[5], "/reports/1", PermissionMethod::Read),
        Err(DomainError::PermissionDenied)
    );
    assert_eq!(service.ensure_access(&[5, 9], "/reports/1", PermissionMethod::Read), Ok(()));
}

#[test]
fn store_fault_is_unexpected_not_a_denial() {
    let service =
        PermissionService::new(BrokenStore { error: DomainError::Unexpected("db down".to_string()) });
    assert_eq!(
        service.ensure_access(&[5], "/reports/1", PermissionMethod::Read),
        Err(DomainError::Unexpected("db down".to_string()))
    );
    assert_eq!(
        service.ensure_access(&[ADMIN_GROUP_ID], "/reports/1", PermissionMethod::Read),
        Err(DomainError::Unexpected("db down".to_string()))
    );
}

#[test]
fn store_fault_under_another_name_is_unexpected_too() {
    let service = PermissionService::new(BrokenStore { error: DomainError::PermissionDenied });
    assert_eq!(
        service.ensure_access(&[5], "/reports/1", PermissionMethod::Read),
        Err(DomainError::Unexpected("permission denied".to_string()))
    );
}

#[test]
fn first_matching_rule_is_found() {
    let rules = vec![
        rule("/users*", 1, PermissionBits::read()),
        rule("/reports*", 1, PermissionBits::read()),
        rule("/reports/1", 1, PermissionBits::full()),
        rule("/*", 1, PermissionBits::write()),
    ];
    assert_eq!(find_grant(&rules, "/reports/1", PermissionMethod::Read), Some(1));
    assert_eq!(find_grant(&rules, "/reports/1", PermissionMethod::Delete), Some(2));
    assert_eq!(find_grant(&rules, "/reports/1", PermissionMethod::Write), Some(2));
    assert_eq!(find_grant(&rules, "/reports/2", PermissionMethod::Write), Some(3));
    assert_eq!(find_grant(&rules, "/reports/2", PermissionMethod::Delete), None);
    assert_eq!(find_grant(&vec![], "/reports/2", PermissionMethod::Read), None);
}

#[test]
fn decision_on_given_rules() {
    let rules = vec![rule("/reports*", 5, PermissionBits::read() | PermissionBits::write())];
    assert_eq!(decide_access(&rules, &[5], "/reports", PermissionMethod::Write), Ok(()));
    assert_eq!(
        decide_access(&rules, &[5], "/reports", PermissionMethod::Delete),
        Err(DomainError::PermissionDenied)
    );
    assert_eq!(decide_access(&rules, &[5, 2], "/reports", PermissionMethod::Delete), Ok(()));
    assert_eq!(decide_access(&vec![], &[2], "/x", PermissionMethod::Delete), Ok(()));
    assert_eq!(
        decide_access(&vec![], &[1, 3], "/x", PermissionMethod::Read),
        Err(DomainError::PermissionDenied)
    );
}

#[test]
fn outcome_on_what_the_store_answered() {
    let rules = vec![rule("/reports*", 5, PermissionBits::read())];
    assert_eq!(access_outcome(Ok(rules.clone()), &[5], "/reports", PermissionMethod::Read), Ok(()));
    assert_eq!(
        access_outcome(Ok(rules), &[5], "/reports", PermissionMethod::Write),
        Err(DomainError::PermissionDenied)
    );
    assert_eq!(
        access_outcome(Err(DomainError::UserNotFound), &[2], "/reports", PermissionMethod::Read),
        Err(DomainError::Unexpected("user not found".to_string()))
    );
    assert_eq!(
        access_outcome(
            Err(DomainError::Unexpected("timeout".to_string())),
            &[5],
            "/reports",
            PermissionMethod::Read
        ),
        Err(DomainError::Unexpected("timeout".to_string()))
    );
}

#[test]
fn admin_group_is_looked_for_among_all_groups() {
    assert!(has_admin_group(&[2]));
    assert!(has_admin_group(&[1, 3, 2]));
    assert!(!has_admin_group(&[]));
    assert!(!has_admin_group(&[1, 3, 20, -2]));
}

#[test]
fn rule_with_an_empty_mask_grants_nothing() {
    let rules = vec![rule("/*", 5, PermissionBits::empty())];
    assert_eq!(
        decide_access(&rules, &[5], "/reports", PermissionMethod::Read),
        Err(DomainError::PermissionDenied)
    );
}
