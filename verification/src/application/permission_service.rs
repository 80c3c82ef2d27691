use crate::domain::permission::{Permission, PermissionBits, PermissionMethod, PermissionRepository};
use crate::shared::errors::{DomainError, DomainErrorView};
use crate::shared::text::{str_eq, str_starts_with, str_strip_star};
use vstd::prelude::*;

verus! {

/// The group whose members may do anything, whatever the rules say.
pub const ADMIN_GROUP_ID: i64 = 2;

/// The pattern that covers every resource.
pub open spec fn universal_pattern() -> Seq<char> {
    seq!['/', '*']
}

/// Whether a rule's pattern covers a resource: the universal pattern covers
/// all; a pattern that ends in `*` covers what begins with the text before
/// the `*`; any other pattern covers itself only. Texts are compared as
/// they are, character for character.
pub open spec fn spec_resource_matches(pattern: Seq<char>, resource: Seq<char>) -> bool {
    if pattern == universal_pattern() {
        true
    } else if pattern.len() > 0 && pattern.last() == '*' {
        pattern.drop_last().is_prefix_of(resource)
    } else {
        pattern == resource
    }
}

/// Whether a rule grants the operation on the resource.
pub open spec fn rule_grants(rule: Permission, resource: Seq<char>, method: PermissionMethod) -> bool {
    spec_resource_matches(rule.resource@, resource) && PermissionBits::spec_allows(
        rule.bits@,
        method,
    )
}

/// The place of the first rule that grants the operation on the resource,
/// if any does.
pub open spec fn first_grant(
    rules: Seq<Permission>,
    resource: Seq<char>,
    method: PermissionMethod,
) -> Option<int>
    decreases rules.len(),
{
    if rules.len() == 0 {
        None
    } else if rule_grants(rules[0], resource, method) {
        Some(0)
    } else {
        match first_grant(rules.drop_first(), resource, method) {
            Some(i) => Some(i + 1),
            None => None,
        }
    }
}

/// Whether access is granted: some rule grants it, or the caller belongs to
/// the admin group.
pub open spec fn access_granted(
    rules: Seq<Permission>,
    group_ids: Seq<i64>,
    resource: Seq<char>,
    method: PermissionMethod,
) -> bool {
    first_grant(rules, resource, method) is Some || group_ids.contains(ADMIN_GROUP_ID)
}

/// `first_grant` names a rule that grants, and none before it does.
pub proof fn lemma_first_grant(rules: Seq<Permission>, resource: Seq<char>, method: PermissionMethod)
    ensures
        match first_grant(rules, resource, method) {
            Some(i) => 0 <= i < rules.len() && rule_grants(rules[i], resource, method)
                && forall|j: int| 0 <= j < i ==> !rule_grants(#[trigger] rules[j], resource, method),
            None => forall|j: int|
                0 <= j < rules.len() ==> !rule_grants(#[trigger] rules[j], resource, method),
        },
    decreases rules.len(),
{
    if rules.len() > 0 && !rule_grants(rules[0], resource, method) {
        let rest = rules.drop_first();
        lemma_first_grant(rest, resource, method);
        match first_grant(rest, resource, method) {
            Some(i) => {
                assert forall|j: int| 0 <= j < i + 1 implies !rule_grants(
                    #[trigger] rules[j],
                    resource,
                    method,
                ) by {
                    if j > 0 {
                        assert(rules[j] == rest[j - 1]);
                    }
                }
                assert(rules[i + 1] == rest[i]);
            },
            None => {
                assert forall|j: int| 0 <= j < rules.len() implies !rule_grants(
                    #[trigger] rules[j],
                    resource,
                    method,
                ) by {
                    if j > 0 {
                        assert(rules[j] == rest[j - 1]);
                    }
                }
            },
        }
    }
}

/// A rule that grants, with none before it that does, is the first grant.
pub proof fn lemma_first_grant_is(
    rules: Seq<Permission>,
    resource: Seq<char>,
    method: PermissionMethod,
    i: int,
)
    requires
        0 <= i < rules.len(),
        rule_grants(rules[i], resource, method),
        forall|j: int| 0 <= j < i ==> !rule_grants(#[trigger] rules[j], resource, method),
    ensures
        first_grant(rules, resource, method) == Some(i),
{
    lemma_first_grant(rules, resource, method);
}

/// The universal pattern covers every resource.
pub proof fn lemma_universal_pattern_covers_all(resource: Seq<char>)
    ensures
        spec_resource_matches(universal_pattern(), resource),
{
}

/// A pattern that is a prefix followed by `*` covers exactly the resources
/// that begin with the prefix; where the prefix is `/`, that is all of
/// them.
pub proof fn lemma_prefix_pattern(prefix: Seq<char>, resource: Seq<char>)
    ensures
        spec_resource_matches(prefix.push('*'), resource) == (prefix.is_prefix_of(resource)
            || prefix == seq!['/']),
{
    let pattern = prefix.push('*');
    assert(pattern.drop_last() =~= prefix);
    if pattern == universal_pattern() {
        assert(prefix =~= seq!['/']);
    }
    if prefix == seq!['/'] {
        assert(pattern =~= universal_pattern());
    }
}

/// A pattern that does not end in `*` covers itself and nothing else.
pub proof fn lemma_exact_pattern(pattern: Seq<char>, resource: Seq<char>)
    requires
        pattern.len() == 0 || pattern.last() != '*',
    ensures
        spec_resource_matches(pattern, resource) == (pattern == resource),
{
}

/// Members of the admin group are granted every operation on every
/// resource, whatever the rules are, even where there are none.
pub proof fn lemma_admin_override(
    rules: Seq<Permission>,
    group_ids: Seq<i64>,
    resource: Seq<char>,
    method: PermissionMethod,
)
    requires
        group_ids.contains(ADMIN_GROUP_ID),
    ensures
        access_granted(rules, group_ids, resource, method),
{
}

/// Without the admin group, access is granted exactly when some rule covers
/// the resource and allows the operation.
pub proof fn lemma_access_by_rules(
    rules: Seq<Permission>,
    group_ids: Seq<i64>,
    resource: Seq<char>,
    method: PermissionMethod,
)
    requires
        !group_ids.contains(ADMIN_GROUP_ID),
    ensures
        access_granted(rules, group_ids, resource, method) == (exists|i: int|
            0 <= i < rules.len() && rule_grants(#[trigger] rules[i], resource, method)),
{
    lemma_first_grant(rules, resource, method);
}

/// Whether a rule's pattern covers a resource.
pub fn resource_matches(pattern: &str, resource: &str) -> (out: bool)
    ensures
        out == spec_resource_matches(pattern@, resource@),
{
    proof {
        reveal_strlit("/*");
        assert("/*"@ =~= universal_pattern());
    }
    if str_eq(pattern, "/*") {
        return true;
    }
    match str_strip_star(pattern) {
        Some(stripped) => str_starts_with(resource, stripped),
        None => str_eq(pattern, resource),
    }
}

/// Whether the admin group is among the given groups.
pub fn has_admin_group(group_ids: &[i64]) -> (out: bool)
    ensures
        out == group_ids@.contains(ADMIN_GROUP_ID),
{
    let mut i: usize = 0;
    while i < group_ids.len()
        invariant
            i <= group_ids.len(),
            forall|j: int| 0 <= j < i ==> group_ids@[j] != ADMIN_GROUP_ID,
        decreases group_ids.len() - i,
    {
        if group_ids[i] == ADMIN_GROUP_ID {
            return true;
        }
        i = i + 1;
    }
    false
}

/// The place of the first rule, in the store's order, that grants the
/// operation on the resource.
pub fn find_grant(permissions: &Vec<Permission>, resource: &str, method: PermissionMethod) -> (out:
    Option<usize>)
    ensures
        out matches Some(i) ==> first_grant(permissions@, resource@, method) == Some(i as int),
        out is None ==> first_grant(permissions@, resource@, method) is None,
{
    let mut i: usize = 0;
    while i < permissions.len()
        invariant
            i <= permissions.len(),
            forall|j: int| 0 <= j < i ==> !rule_grants(#[trigger] permissions@[j], resource@, method),
        decreases permissions.len() - i,
    {
        let perm = &permissions[i];
        if resource_matches(perm.resource.as_str(), resource) && perm.bits.allows(method) {
            proof {
                lemma_first_grant_is(permissions@, resource@, method, i as int);
            }
            return Some(i);
        }
        i = i + 1;
    }
    proof {
        lemma_first_grant(permissions@, resource@, method);
    }
    None
}

/// Decides on the rules that the store returned: granted by the first rule
/// that covers the resource and allows the operation; failing that, granted
/// to members of the admin group; denied otherwise.
pub fn decide_access(
    permissions: &Vec<Permission>,
    group_ids: &[i64],
    resource: &str,
    method: PermissionMethod,
) -> (out: Result<(), DomainError>)
    ensures
        out is Ok <==> access_granted(permissions@, group_ids@, resource@, method),
        out matches Err(e) ==> e is PermissionDenied,
{
    if find_grant(permissions, resource, method).is_some() {
        return Ok(());
    }
    if has_admin_group(group_ids) {
        return Ok(());
    }
    Err(DomainError::PermissionDenied)
}

/// Whether `out` is the answer to a check of access, given what the store
/// answered: on the store's rules, the decision; on a fault of the store,
/// an unexpected error that carries the fault, never a denial.
pub open spec fn is_access_outcome(
    fetched: Result<Vec<Permission>, DomainError>,
    group_ids: Seq<i64>,
    resource: Seq<char>,
    method: PermissionMethod,
    out: Result<(), DomainError>,
) -> bool {
    match fetched {
        Ok(rules) => {
            &&& out is Ok <==> access_granted(rules@, group_ids, resource, method)
            &&& out matches Err(e) ==> e is PermissionDenied
        },
        Err(fault) => out matches Err(e) && e@ == DomainErrorView::Unexpected(fault.spec_as_fault()),
    }
}

/// The answer to a check of access, given what the store answered.
pub fn access_outcome(
    fetched: Result<Vec<Permission>, DomainError>,
    group_ids: &[i64],
    resource: &str,
    method: PermissionMethod,
) -> (out: Result<(), DomainError>)
    ensures
        is_access_outcome(fetched, group_ids@, resource@, method, out),
{
    match fetched {
        Ok(permissions) => decide_access(&permissions, group_ids, resource, method),
        Err(fault) => Err(fault.into_fault()),
    }
}

/// Decides whether the members of some groups may perform an operation on a
/// resource, on the rules of a permission store.
pub struct PermissionService<R: PermissionRepository> {
    repo: R,
}

impl<R: PermissionRepository> PermissionService<R> {
    pub fn new(repo: R) -> (out: Self)
        ensures
            out.repo() == repo,
    {
        Self { repo }
    }

    /// The store that the service asks.
    pub closed spec fn repo(&self) -> R {
        self.repo
    }

    /// Whether `out` may be the answer to a check of access: it is the
    /// answer to the check on what the store may answer when it is asked
    /// for the rules of exactly these groups.
    pub open spec fn may_ensure(
        &self,
        group_ids: Seq<i64>,
        resource: Seq<char>,
        method: PermissionMethod,
        out: Result<(), DomainError>,
    ) -> bool {
        exists|fetched: Result<Vec<Permission>, DomainError>|
            self.repo().may_find(group_ids, fetched) && #[trigger] is_access_outcome(
                fetched,
                group_ids,
                resource,
                method,
                out,
            )
    }

    /// Asks the store once for the rules of the given groups and decides on
    /// them: the result is the answer to the check of access on what the
    /// store answered for exactly these groups. A denial is answered only
    /// where the store answered and the caller is not in the admin group.
    pub fn ensure_access(&self, group_ids: &[i64], resource: &str, method: PermissionMethod) -> (out:
        Result<(), DomainError>)
        ensures
            self.may_ensure(group_ids@, resource@, method, out),
            out matches Err(e) ==> e is PermissionDenied || e is Unexpected,
            out matches Err(e) ==> (e is PermissionDenied ==> !group_ids@.contains(ADMIN_GROUP_ID)),
    {
        let fetched = self.repo.find_permissions_for_groups(group_ids);
        let ghost answer = fetched;
        let out = access_outcome(fetched, group_ids, resource, method);
        assert(is_access_outcome(answer, group_ids@, resource@, method, out));
        out
    }
}

} // verus!
