use crate::application::data_catalog_service::DatasetSchema;
use crate::domain::permission::{Permission, PermissionBits, PermissionView};
use crate::domain::user::{
    lowercased, User, UserCredentials, UserCredentialsView, UserGroup, UserGroupView, UserId,
    UserStatus, UserView, UserWithGroups, UserWithGroupsView,
};
use crate::shared::errors::DomainError;
use vstd::prelude::*;

verus! {

/// A row of the rules table.
#[derive(Debug, Clone, PartialEq, Eq)]
pub struct PermissionRow {
    pub resource: String,
    pub group_id: i64,
    pub perm_value: i32,
}

/// The mask that a stored code stands for. The codes 1 to 7 are the masks
/// themselves; the code 17 stands for the full mask as well. Any other code
/// stands for no mask.
pub open spec fn spec_perm_value(value: i32) -> Option<u32> {
    if 1 <= value <= 7 {
        Some(value as u32)
    } else if value == 17 {
        Some(7u32)
    } else {
        None
    }
}

/// The mask that a stored code stands for.
pub fn map_perm_value(value: i32) -> (out: Option<PermissionBits>)
    ensures
        match spec_perm_value(value) {
            Some(bits) => out matches Some(mask) && mask@ == bits,
            None => out is None,
        },
{
    if 1 <= value && value <= 7 {
        Some(PermissionBits::from_bits(value as u32))
    } else if value == 17 {
        Some(PermissionBits::full())
    } else {
        None
    }
}

/// The rule that a row of the rules table stands for. A row with a code
/// that stands for no mask is kept, as a rule that grants nothing.
pub open spec fn spec_rule_of(row: PermissionRow) -> PermissionView {
    PermissionView {
        resource: row.resource@,
        group_id: row.group_id,
        bits: match spec_perm_value(row.perm_value) {
            Some(bits) => bits,
            None => 0u32,
        },
    }
}

/// The rules that rows of the rules table stand for, in the rows' order.
pub fn permissions_from_rows(rows: Vec<PermissionRow>) -> (out: Vec<Permission>)
    ensures
        out@.len() == rows@.len(),
        forall|i: int| 0 <= i < rows@.len() ==> (#[trigger] out@[i])@ == spec_rule_of(rows@[i]),
{
    let mut out: Vec<Permission> = Vec::new();
    let mut i: usize = 0;
    while i < rows.len()
        invariant
            i <= rows.len(),
            out@.len() == i,
            forall|j: int| 0 <= j < i ==> (#[trigger] out@[j])@ == spec_rule_of(rows@[j]),
        decreases rows.len() - i,
    {
        let row = &rows[i];
        let bits = match map_perm_value(row.perm_value) {
            Some(bits) => bits,
            None => PermissionBits::empty(),
        };
        out.push(Permission { resource: row.resource.clone(), group_id: row.group_id, bits });
        i = i + 1;
    }
    out
}

/// A row of the catalog of data sets.
#[derive(Debug, Clone, PartialEq, Eq)]
pub struct DatasetRow {
    pub id: i64,
    pub name: String,
    pub description: Option<String>,
    pub base_query: String,
}

/// The data sets that rows of the catalog stand for, in the rows' order.
pub fn schemas_from_rows(rows: Vec<DatasetRow>) -> (out: Vec<DatasetSchema>)
    ensures
        out@.len() == rows@.len(),
        forall|i: int|
            0 <= i < rows@.len() ==> {
                &&& (#[trigger] out@[i]).id == rows@[i].id
                &&& out@[i].name == rows@[i].name
                &&& out@[i].description == rows@[i].description
                &&& out@[i].base_query == rows@[i].base_query
            },
{
    let mut out: Vec<DatasetSchema> = Vec::new();
    let mut i: usize = 0;
    while i < rows.len()
        invariant
            i <= rows.len(),
            out@.len() == i,
            forall|j: int|
                0 <= j < i ==> {
                    &&& (#[trigger] out@[j]).id == rows@[j].id
                    &&& out@[j].name == rows@[j].name
                    &&& out@[j].description == rows@[j].description
                    &&& out@[j].base_query == rows@[j].base_query
                },
        decreases rows.len() - i,
    {
        let row = &rows[i];
        let description = match &row.description {
            Some(text) => Some(text.clone()),
            None => None,
        };
        out.push(
            DatasetSchema {
                id: row.id,
                name: row.name.clone(),
                description,
                base_query: row.base_query.clone(),
            },
        );
        i = i + 1;
    }
    out
}

/// What resolving a data set's query answers, given the row that the
/// catalog holds for it, if any.
pub fn resolved_query(row: Option<DatasetRow>) -> (out: Result<String, DomainError>)
    ensures
        match row {
            Some(found) => out matches Ok(query) && query == found.base_query,
            None => out matches Err(e) && e is UserNotFound,
        },
{
    match row {
        Some(found) => Ok(found.base_query),
        None => Err(DomainError::UserNotFound),
    }
}

/// A row of the users table, joined with one of the user's groups where it
/// has any. Times are in microseconds since the start of 1970 (UTC).
#[derive(Debug, Clone, PartialEq, Eq)]
pub struct UserRow {
    pub id: i64,
    pub email: String,
    pub first_name: String,
    pub last_name: String,
    pub status: String,
    pub last_login: Option<i64>,
    pub created_time: i64,
    pub updated_time: i64,
    pub password_hash: String,
    pub salt: String,
    pub group_id: Option<i64>,
    pub group_name: Option<String>,
}

/// The row that the users table returns for a user just inserted.
#[derive(Debug, Clone, PartialEq, Eq)]
pub struct UserInsertRow {
    pub id: i64,
    pub email: String,
    pub first_name: String,
    pub last_name: String,
    pub status: String,
    pub last_login: Option<i64>,
    pub created_time: i64,
    pub updated_time: i64,
}

impl UserInsertRow {
    /// The user that the row stands for. A status that the domain does not
    /// know is refused.
    pub fn into_user(self) -> (out: Result<User, DomainError>)
        ensures
            match UserStatus::spec_parse(lowercased(self.status@)) {
                Some(status) => out matches Ok(user) && user@ == (UserView {
                    id: self.id,
                    email: self.email@,
                    first_name: self.first_name@,
                    last_name: self.last_name@,
                    status,
                    last_login: self.last_login,
                    created_at: self.created_time,
                    updated_at: self.updated_time,
                }),
                None => out matches Err(e) && e is InvalidStatus && e->InvalidStatus_0@
                    == lowercased(self.status@),
            },
    {
        let status = match UserStatus::try_from(self.status) {
            Ok(status) => status,
            Err(e) => {
                return Err(e);
            },
        };
        Ok(
            User {
                id: UserId(self.id),
                email: self.email,
                first_name: self.first_name,
                last_name: self.last_name,
                status,
                last_login: self.last_login,
                created_at: self.created_time,
                updated_at: self.updated_time,
            },
        )
    }
}

/// The status that a stored name stands for; a name that stands for none
/// counts as active.
pub open spec fn spec_status_or_active(name: Seq<char>) -> UserStatus {
    match UserStatus::spec_parse(lowercased(name)) {
        Some(status) => status,
        None => UserStatus::Active,
    }
}

/// The group that a row names: it names one where it holds both the
/// group's identifier and its name.
pub open spec fn row_group(row: UserRow) -> Option<UserGroupView> {
    match (row.group_id, row.group_name) {
        (Some(id), Some(name)) => Some(UserGroupView { id, name: name@ }),
        _ => None,
    }
}

/// The user that a row describes, with its credentials and no group yet.
pub open spec fn row_user(row: UserRow) -> UserWithGroupsView {
    UserWithGroupsView {
        user: UserView {
            id: row.id,
            email: row.email@,
            first_name: row.first_name@,
            last_name: row.last_name@,
            status: spec_status_or_active(row.status@),
            last_login: row.last_login,
            created_at: row.created_time,
            updated_at: row.updated_time,
        },
        groups: Seq::empty(),
        credentials: Some(
            UserCredentialsView { password_hash: row.password_hash@, salt: row.salt@ },
        ),
    }
}

/// A user with one more group, where there is one to add.
pub open spec fn with_group(user: UserWithGroupsView, group: Option<UserGroupView>) -> UserWithGroupsView {
    match group {
        Some(g) => UserWithGroupsView { groups: user.groups.push(g), ..user },
        None => user,
    }
}

/// Whether the row at `i` opens a new user: it is the first row, or its
/// user differs from that of the row before.
pub open spec fn opens_user(rows: Seq<UserRow>, i: int) -> bool {
    i == 0 || rows[i].id != rows[i - 1].id
}

/// The users that joined rows describe. The rows are read in order: a row
/// that opens a user adds one, described by that row; every row that names
/// a group adds the group to the user opened last.
pub open spec fn spec_group_rows(rows: Seq<UserRow>) -> Seq<UserWithGroupsView>
    decreases rows.len(),
{
    if rows.len() == 0 {
        Seq::empty()
    } else {
        let last = rows.len() - 1;
        let before = spec_group_rows(rows.drop_last());
        if opens_user(rows, last) {
            before.push(with_group(row_user(rows[last]), row_group(rows[last])))
        } else {
            before.update(before.len() - 1, with_group(before.last(), row_group(rows[last])))
        }
    }
}

/// The views of the given users, in their order.
pub open spec fn user_views(users: Seq<UserWithGroups>) -> Seq<UserWithGroupsView> {
    Seq::new(users.len(), |i: int| users[i]@)
}

/// Rows describe as many users as there are rows that open one, and the
/// user opened last is that of the last row.
pub proof fn lemma_group_rows_shape(rows: Seq<UserRow>)
    ensures
        spec_group_rows(rows).len() == Seq::new(rows.len(), |i: int| i).filter(
            |i: int| opens_user(rows, i),
        ).len(),
        rows.len() > 0 ==> spec_group_rows(rows).len() > 0 && spec_group_rows(rows).last().user.id
            == rows.last().id,
    decreases rows.len(),
{
    let places = Seq::new(rows.len(), |i: int| i);
    let opens = |i: int| opens_user(rows, i);
    if rows.len() == 0 {
        assert(places.filter(opens) =~= Seq::<int>::empty()) by {
            assert(places =~= Seq::<int>::empty());
            reveal(Seq::filter);
        }
    } else {
        let front = rows.drop_last();
        let last = rows.len() - 1;
        lemma_group_rows_shape(front);
        let front_places = Seq::new(front.len(), |i: int| i);
        let front_opens = |i: int| opens_user(front, i);
        assert(places.drop_last() =~= front_places);
        assert(places.drop_last().filter(opens) =~= front_places.filter(front_opens)) by {
            assert forall|i: int| 0 <= i < front_places.len() implies opens(front_places[i])
                == front_opens(front_places[i]) by {}
            lemma_filter_agrees(front_places, opens, front_opens);
        }
        reveal(Seq::filter);
        assert(places.last() == last);
    }
}

/// Two tests that agree on every item of a sequence keep the same items.
pub proof fn lemma_filter_agrees<A>(s: Seq<A>, p: spec_fn(A) -> bool, q: spec_fn(A) -> bool)
    requires
        forall|i: int| 0 <= i < s.len() ==> p(s[i]) == q(s[i]),
    ensures
        s.filter(p) == s.filter(q),
    decreases s.len(),
{
    reveal(Seq::filter);
    if s.len() > 0 {
        lemma_filter_agrees(s.drop_last(), p, q);
    }
}

/// The user that a row opens, with the row's group where it names one.
pub fn open_user(row: &UserRow) -> (out: UserWithGroups)
    ensures
        out@ == with_group(row_user(*row), row_group(*row)),
{
    let status = match UserStatus::try_from(row.status.clone()) {
        Ok(status) => status,
        Err(_) => UserStatus::Active,
    };
    let user = User {
        id: UserId(row.id),
        email: row.email.clone(),
        first_name: row.first_name.clone(),
        last_name: row.last_name.clone(),
        status,
        last_login: row.last_login,
        created_at: row.created_time,
        updated_at: row.updated_time,
    };
    let opened = UserWithGroups {
        user,
        groups: Vec::new(),
        credentials: Some(
            UserCredentials { password_hash: row.password_hash.clone(), salt: row.salt.clone() },
        ),
    };
    assert(opened@.groups =~= Seq::empty());
    assert(opened@ == row_user(*row));
    add_group(opened, row)
}

/// The user with the row's group added, where the row names one.
pub fn add_group(user: UserWithGroups, row: &UserRow) -> (out: UserWithGroups)
    ensures
        out@ == with_group(user@, row_group(*row)),
{
    let mut user = user;
    let ghost before = user@;
    match (&row.group_id, &row.group_name) {
        (Some(id), Some(name)) => {
            user.groups.push(UserGroup { id: *id, name: name.clone() });
            assert(user@.groups =~= before.groups.push(UserGroupView { id: *id, name: name@ }));
        },
        _ => {},
    }
    user
}

/// The users that joined rows describe, in the rows' order.
pub fn group_rows_list(rows: Vec<UserRow>) -> (out: Vec<UserWithGroups>)
    ensures
        user_views(out@) == spec_group_rows(rows@),
{
    let mut grouped: Vec<UserWithGroups> = Vec::new();
    let mut current: Option<UserWithGroups> = None;
    let mut i: usize = 0;
    assert(user_views(grouped@) =~= spec_group_rows(rows@.subrange(0, 0)));
    while i < rows.len()
        invariant
            i <= rows.len(),
            i == 0 ==> current is None && user_views(grouped@) == spec_group_rows(
                rows@.subrange(0, 0),
            ),
            i > 0 ==> current is Some && spec_group_rows(rows@.subrange(0, i as int))
                == user_views(grouped@).push(current->0@) && current->0.user.id.0 == rows@[i
                - 1].id,
        decreases rows.len() - i,
    {
        let row = &rows[i];
        let ghost prefix = rows@.subrange(0, i + 1);
        let ghost shown = user_views(grouped@);
        proof {
            assert(prefix.drop_last() =~= rows@.subrange(0, i as int));
            assert(prefix[i as int] == rows@[i as int]);
            assert(i > 0 ==> prefix[i - 1] == rows@[i - 1]);
        }
        let opens = match &current {
            Some(user) => user.user.id.0 != row.id,
            None => true,
        };
        assert(opens == opens_user(prefix, i as int));
        if opens {
            match current.take() {
                Some(user) => {
                    grouped.push(user);
                    assert(user_views(grouped@) =~= shown.push(user@));
                },
                None => {},
            }
            current = Some(open_user(row));
        } else {
            let user = current.take().unwrap();
            let ghost seen = shown.push(user@);
            current = Some(add_group(user, row));
            assert(seen.update(seen.len() - 1, current->0@) =~= shown.push(current->0@));
        }
        i = i + 1;
    }
    proof {
        assert(rows@.subrange(0, i as int) =~= rows@);
    }
    match current {
        Some(user) => {
            let ghost shown = user_views(grouped@);
            grouped.push(user);
            assert(user_views(grouped@) =~= shown.push(user@));
        },
        None => {},
    }
    grouped
}

/// The one user that joined rows describe: the first, where they describe
/// several, and none where there is no row.
pub fn group_rows(rows: Vec<UserRow>) -> (out: Option<UserWithGroups>)
    ensures
        match out {
            Some(user) => spec_group_rows(rows@).len() > 0 && user@ == spec_group_rows(rows@)[0],
            None => spec_group_rows(rows@).len() == 0,
        },
{
    let mut list = group_rows_list(rows);
    if list.len() == 0 {
        None
    } else {
        let ghost shown = user_views(list@);
        let first = list.swap_remove(0);
        assert(first@ == shown[0]);
        Some(first)
    }
}

} // verus!
