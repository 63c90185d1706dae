use authust::entities::{Binding, UserForCreation};
use authust::store::RbacStore;
use authust::errors::AccessModelError;
use authust::usecases::{
    create_status, disable_result, disable_status, find_status, storage_result, unbind_member_from_group,
    unbind_permission_from_group, unbind_result,
};

const T0: i64 = 1_466_622_625_000_000;
const T1: i64 = 1_655_935_825_000_000;
const NOW: i64 = 1_700_000_000_000_000;

fn seeded() -> RbacStore {
    let mut s = RbacStore::new();
    for (name, hash) in [("Ivan", "1234"), ("test_user", "hash-of-test"), ("Godzilla", "1234")] {
        s.users
            .create_user(UserForCreation::new(name.to_string(), hash.to_string()), T0)
            .unwrap();
    }
    for name in ["PERM_1", "PERM_2", "PERM_3"] {
        s.permissions.create(name.to_string(), T0).unwrap();
    }
    s.permissions.disable_by_id(3, T1).unwrap();
    for name in ["GROUP_1", "GROUP_2", "GROUP_3", "ROLE_AUTH_ADMIN", "ROLE_AUTH_MANAGER", "ROLE_AUTH_STAFF"] {
        s.groups.create(name.to_string(), T0).unwrap();
    }
    s.groups.disable_by_id(3, T1).unwrap();
    for (group, permission) in [(1, 1), (1, 2), (1, 3), (2, 1), (2, 2), (2, 3), (3, 3)] {
        s.bind_permission_with_group(group, permission, T0);
    }
    s.unbind_permission_with_group(2, 3, T1).unwrap();
    for (group, user) in [(1, 1), (1, 2), (1, 3), (2, 1), (2, 2), (4, 2), (2, 3), (3, 3)] {
        s.bind_member_with_group(group, user, T0);
    }
    s.unbind_member_with_group(2, 3, T1).unwrap();
    s
}

#[test]
fn test_get_group() {
    let app = seeded();
    let found = storage_result(app.groups.find_by_id(1));
    assert_eq!(find_status(&found), 200);
    let group = found.unwrap();
    assert_eq!(group.name, "GROUP_1");
    assert_eq!(!group.stamp.enabled, false);
}

#[test]
fn test_create_new_group() {
    let mut app = seeded();
    let created = storage_result(app.groups.create("test_group".to_string(), NOW));
    assert_eq!(create_status(&created), 201);
    let group = created.unwrap();
    assert_eq!(group.name, "test_group");
    assert_eq!(!group.stamp.enabled, false);
}

#[test]
fn test_delete_group() {
    let mut app = seeded();
    // a row that does not exist
    let gone = disable_result(app.groups.disable_by_id(9999, NOW));
    assert_eq!(disable_status(gone), 204);

    // the row as it stands at first
    let found = storage_result(app.groups.find_by_id(1));
    assert_eq!(find_status(&found), 200);
    let group = found.unwrap();
    assert_eq!(group.name, "GROUP_1");
    assert_eq!(!group.stamp.enabled, false);
    assert_eq!(group.stamp.created_at, group.stamp.updated_at);

    // disable
    let first = disable_result(app.groups.disable_by_id(1, NOW));
    assert_eq!(disable_status(first), 204);
    // disable again
    let second = disable_result(app.groups.disable_by_id(1, NOW + 1));
    assert_eq!(disable_status(second), 204);

    // the row after both
    let found = storage_result(app.groups.find_by_id(1));
    assert_eq!(find_status(&found), 200);
    let group = found.unwrap();
    assert_eq!(group.name, "GROUP_1");
    assert_eq!(!group.stamp.enabled, true);
    assert_ne!(group.stamp.created_at, group.stamp.updated_at);
}

#[test]
fn test_bind_permission_with_group() {
    let mut app = seeded();
    let rows = app.group_permissions.len();
    let binding: Binding = app.bind_permission_with_group(3, 1, NOW);
    assert_eq!(binding.group_id, 3);
    assert_eq!(binding.other_id, 1);
    assert_eq!(!binding.stamp.enabled, false);
    assert_eq!(app.group_permissions.len(), rows + 1);
}

#[test]
fn test_bind_permission_with_group_but_binding_exists() {
    let mut app = seeded();
    let rows = app.group_permissions.len();
    let binding = app.bind_permission_with_group(1, 1, NOW);
    assert_eq!(binding.group_id, 1);
    assert_eq!(binding.other_id, 1);
    assert_eq!(!binding.stamp.enabled, false);
    assert_eq!(app.group_permissions.len(), rows);
}

#[test]
fn test_bind_permission_with_group_implicitly_enable_without_creation() {
    let mut app = seeded();
    let rows = app.group_permissions.len();
    assert_eq!(app.group_permissions.find(2, 3).unwrap().stamp.enabled, false);
    let binding = app.bind_permission_with_group(2, 3, NOW);
    assert_eq!(binding.group_id, 2);
    assert_eq!(binding.other_id, 3);
    assert_eq!(!binding.stamp.enabled, false);
    assert_eq!(binding.stamp.created_at, T0);
    assert_eq!(binding.stamp.updated_at, NOW);
    assert_eq!(app.group_permissions.len(), rows);
}

#[test]
fn test_unbind_permission_with_group() {
    let mut app = seeded();
    let outcome = unbind_result(app.unbind_permission_with_group(1, 1, NOW));
    assert_eq!(find_status(&outcome), 200);
    let binding = outcome.unwrap().unwrap();
    assert_eq!(binding.group_id, 1);
    assert_eq!(binding.other_id, 1);
    assert_eq!(!binding.stamp.enabled, true);
    assert_ne!(binding.stamp.created_at, binding.stamp.updated_at);
}

#[test]
fn test_bind_member_with_group() {
    let mut app = seeded();
    let rows = app.group_members.len();
    let binding = app.bind_member_with_group(3, 1, NOW);
    assert_eq!(binding.group_id, 3);
    assert_eq!(binding.other_id, 1);
    assert_eq!(!binding.stamp.enabled, false);
    assert_eq!(app.group_members.len(), rows + 1);
}

#[test]
fn test_bind_member_with_group_but_binding_exists() {
    let mut app = seeded();
    let rows = app.group_members.len();
    let binding = app.bind_member_with_group(1, 1, NOW);
    assert_eq!(binding.group_id, 1);
    assert_eq!(binding.other_id, 1);
    assert_eq!(!binding.stamp.enabled, false);
    assert_eq!(app.group_members.len(), rows);
}

#[test]
fn test_bind_member_with_group_implicitly_enable_without_creation() {
    let mut app = seeded();
    let rows = app.group_members.len();
    let binding = app.bind_member_with_group(2, 3, NOW);
    assert_eq!(binding.group_id, 2);
    assert_eq!(binding.other_id, 3);
    assert_eq!(!binding.stamp.enabled, false);
    assert_eq!(binding.stamp.created_at, T0);
    assert_eq!(app.group_members.len(), rows);
}

#[test]
fn test_unbind_member_with_group() {
    let mut app = seeded();
    let outcome = unbind_result(app.unbind_member_with_group(1, 1, NOW));
    assert_eq!(find_status(&outcome), 200);
    let binding = outcome.unwrap().unwrap();
    assert_eq!(binding.group_id, 1);
    assert_eq!(binding.other_id, 1);
    assert_eq!(!binding.stamp.enabled, true);
    assert_ne!(binding.stamp.created_at, binding.stamp.updated_at);
}

#[test]
fn unbind_of_a_pair_never_bound_creates_no_row() {
    let mut app = seeded();
    let rows = app.group_members.len();
    assert_eq!(app.unbind_member_with_group(6, 1, NOW), Err(AccessModelError::NotFoundError));
    let outcome = unbind_member_from_group(&mut app, 6, 1, NOW);
    assert_eq!(outcome, Ok(None));
    assert_eq!(find_status(&outcome), 200);
    assert_eq!(app.group_members.len(), rows);
    assert_eq!(app.group_members.find(6, 1), None);

    let rows = app.group_permissions.len();
    assert_eq!(unbind_permission_from_group(&mut app, 6, 1, NOW), Ok(None));
    assert_eq!(app.group_permissions.len(), rows);
    assert_eq!(app.group_permissions.find(6, 1), None);
}

#[test]
fn unbind_use_cases_show_the_binding_switched_off() {
    let mut app = seeded();
    let shown = unbind_permission_from_group(&mut app, 1, 2, NOW).unwrap().unwrap();
    assert_eq!(shown.group_id, 1);
    assert_eq!(shown.other_id, 2);
    assert_eq!(shown.stamp.enabled, false);
    assert_eq!(shown.stamp.created_at, T0);
    assert_eq!(shown.stamp.updated_at, NOW);
    assert_eq!(app.group_permissions.find(1, 2), Some(shown));
    let shown = unbind_member_from_group(&mut app, 4, 2, NOW).unwrap().unwrap();
    assert_eq!(shown.stamp.enabled, false);
    assert_eq!(app.group_members.find(4, 2), Some(shown));
    assert_eq!(unbind_result(Err(AccessModelError::TemporaryError)).is_err(), true);
}

#[test]
fn disabling_twice_changes_nothing_the_second_time() {
    let mut app = seeded();
    assert_eq!(app.permissions.disable_by_id(1, NOW), Ok(()));
    let once = app.permissions.find_by_id(1).unwrap();
    assert_eq!(once.stamp.enabled, false);
    assert_eq!(once.stamp.created_at, T0);
    assert_eq!(once.stamp.updated_at, NOW);
    assert_eq!(app.permissions.disable_by_id(1, NOW + 5), Ok(()));
    assert_eq!(app.permissions.find_by_id(1).unwrap(), once);
    assert_eq!(app.permissions.disable_by_id(0, NOW), Err(AccessModelError::NotFoundError));
    assert_eq!(app.permissions.disable_by_id(-1, NOW), Err(AccessModelError::NotFoundError));
    assert_eq!(app.permissions.disable_by_id(4, NOW), Err(AccessModelError::NotFoundError));
    assert_eq!(app.permissions.len(), 3);
    assert_eq!(app.permissions.find_by_id(4), Err(AccessModelError::NotFoundError));
    assert_eq!(app.permissions.find_by_id(3).unwrap().stamp.enabled, false);
}

#[test]
fn binding_lifecycle_keeps_created_at_and_moves_updated_at() {
    let mut app = RbacStore::new();
    let group = app.groups.create("G".to_string(), 100).unwrap();
    let permission = app.permissions.create("P".to_string(), 100).unwrap();
    assert!(group.stamp.enabled && permission.stamp.enabled);

    let bound = app.bind_permission_with_group(group.id, permission.id, 200);
    assert!(bound.stamp.enabled);
    assert_eq!(bound.stamp.created_at, 200);
    assert_eq!(bound.stamp.updated_at, 200);

    let unbound = app.unbind_permission_with_group(group.id, permission.id, 300).unwrap();
    assert!(!unbound.stamp.enabled);
    assert_eq!(unbound.stamp.created_at, 200);
    assert_eq!(unbound.stamp.updated_at, 300);

    let rebound = app.bind_permission_with_group(group.id, permission.id, 400);
    assert!(rebound.stamp.enabled);
    assert_eq!(rebound.stamp.created_at, 200);
    assert_eq!(rebound.stamp.updated_at, 400);
    assert_eq!(app.group_permissions.len(), 1);
}

#[test]
fn bind_twice_leaves_one_row_unchanged() {
    let mut app = RbacStore::new();
    let first = app.bind_member_with_group(7, 9, 50);
    let second = app.bind_member_with_group(7, 9, 60);
    assert_eq!(first, second);
    assert_eq!(second.stamp.created_at, 50);
    assert_eq!(second.stamp.updated_at, 50);
    assert!(second.stamp.enabled);
    assert_eq!(app.group_members.len(), 1);
}

#[test]
fn updated_at_never_goes_back() {
    let mut app = RbacStore::new();
    app.bind_member_with_group(1, 1, 500);
    let unbound = app.unbind_member_with_group(1, 1, 400).unwrap();
    assert!(!unbound.stamp.enabled);
    assert_eq!(unbound.stamp.created_at, 500);
    assert_eq!(unbound.stamp.updated_at, 500);
    let again = app.unbind_member_with_group(1, 1, 900).unwrap();
    assert_eq!(again, unbound);
}

#[test]
fn disabling_a_group_leaves_its_bindings_alone() {
    let mut app = seeded();
    let before = app.group_members.find(1, 1);
    app.groups.disable_by_id(1, NOW).unwrap();
    assert_eq!(app.group_members.find(1, 1), before);
    assert_eq!(app.group_permissions.find(1, 1).unwrap().stamp.enabled, true);
}

#[test]
fn bindings_of_the_two_tables_are_independent() {
    let mut app = RbacStore::new();
    app.bind_permission_with_group(1, 2, 10);
    assert_eq!(app.group_members.find(1, 2), None);
    assert_eq!(app.group_permissions.find(2, 1), None);
    assert!(app.group_permissions.find(1, 2).is_some());
}
