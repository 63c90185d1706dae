use authust::credential::{accepted, check_credential, hash_password, password_matches, hashed};
use authust::entities::{User, UserForCreation};
use authust::errors::{AccessModelError, UserUCError};
use authust::store::RbacStore;
use authust::token::TokenService;
use authust::usecases::{
    create_status, disable_group_by_id, disable_permission_by_id, disable_result, disable_status,
    disable_user_by_id, error_status, find_status, sign_in, sign_up, storage_result,
};

const T0: i64 = 1_466_622_625_000_000;
const NOW: i64 = 1_700_000_000_000_000;
const HOUR: i64 = 3_600_000_000;
const TEST_PASSWORD: &str = "password";
const TEST_PASSWORD_HASH: &str =
    "$argon2i$v=19$m=4096,t=3,p=1$c29tZXNhbHQ$iWh06vD8Fy27wf9npn6FXWiCX4K6pW6Ue1Bnzz07Z8A";

fn seeded() -> RbacStore {
    let mut s = RbacStore::new();
    for (name, hash) in [("Ivan", "1234"), ("Anton", TEST_PASSWORD_HASH), ("Godzilla", "1234")] {
        s.users
            .create_user(UserForCreation::new(name.to_string(), hash.to_string()), T0)
            .unwrap();
    }
    for name in ["GROUP_1", "GROUP_2", "ROLE_AUTH_ADMIN"] {
        s.groups.create(name.to_string(), T0).unwrap();
    }
    s.bind_member_with_group(1, 2, T0);
    s.bind_member_with_group(3, 2, T0);
    s.bind_member_with_group(2, 1, T0);
    s
}

fn service() -> TokenService {
    TokenService::new(b"a signing key for the tests".to_vec())
}

#[test]
fn test_get_user() {
    let app = seeded();
    let found = storage_result(app.users.find_user_by_id(1));
    assert_eq!(find_status(&found), 200)
}

#[test]
fn test_get_user_not_found() {
    let app = seeded();
    let found = storage_result(app.users.find_user_by_id(999991));
    assert_eq!(find_status(&found), 404);
}

#[test]
fn test_delete_user_what_doesnt_exist() {
    let mut app = seeded();
    let outcome = disable_result(app.users.remove_user_by_id(999, NOW));
    assert_eq!(disable_status(outcome), 204)
}

#[test]
fn test_create_new_user() {
    let mut app = seeded();
    let created = storage_result(
        app.users.create_user(UserForCreation::new("tester".to_string(), "test".to_string()), NOW),
    );
    let status = create_status(&created);
    let user: User = created.unwrap();
    assert_eq!(user.username, "tester");
    assert_eq!(status, 201)
}

#[test]
fn test_sign_in_forbidden() {
    let app = seeded();
    let outcome = sign_in(&app, &service(), "keker", "wrong_passord", NOW, HOUR);
    assert_eq!(find_status(&outcome), 403)
}

#[test]
fn test_sign_in() {
    let app = seeded();
    let outcome = sign_in(&app, &service(), "Anton", TEST_PASSWORD, NOW, HOUR);
    let status = find_status(&outcome);
    let token = outcome.unwrap();
    assert_eq!(status, 200);
    assert_eq!(token.claims.user_id, 2);
    assert_eq!(token.claims.roles, vec!["GROUP_1".to_string(), "ROLE_AUTH_ADMIN".to_string()]);
    assert_eq!(token.claims.issued_at, NOW);
    assert_eq!(token.claims.expiry, NOW + HOUR);
}

#[test]
fn disabled_user_is_still_found() {
    let mut app = seeded();
    assert_eq!(find_status(&storage_result(app.users.find_user_by_id(3))), 200);
    assert_eq!(disable_status(disable_result(app.users.remove_user_by_id(3, NOW))), 204);
    let user = app.users.find_user_by_id(3).unwrap();
    assert_eq!(user.username, "Godzilla");
    assert_eq!(user.stamp.enabled, false);
    assert_eq!(user.stamp.created_at, T0);
    assert_eq!(user.stamp.updated_at, NOW);
}

#[test]
fn wrong_password_and_unknown_user_look_the_same() {
    let app = seeded();
    let wrong = sign_in(&app, &service(), "Anton", "not-the-password", NOW, HOUR);
    let unknown = sign_in(&app, &service(), "nobody", TEST_PASSWORD, NOW, HOUR);
    assert_eq!(wrong, Err(UserUCError::ForbiddenError));
    assert_eq!(wrong, unknown);
    assert_eq!(find_status(&wrong), 403);
    assert_eq!(app.users.verify("Anton", "not-the-password"), Err(AccessModelError::NotFoundError));
    assert_eq!(app.users.verify("nobody", TEST_PASSWORD), Err(AccessModelError::NotFoundError));
    assert_eq!(app.users.verify("Ivan", "1234"), Err(AccessModelError::NotFoundError));
    assert_eq!(app.users.verificate_default("Anton", "not-the-hash"), Err(AccessModelError::NotFoundError));
    assert_eq!(app.users.verificate_default("nobody", "1234"), Err(AccessModelError::NotFoundError));
}

#[test]
fn disabled_user_cannot_sign_in() {
    let mut app = seeded();
    assert!(sign_in(&app, &service(), "Anton", TEST_PASSWORD, NOW, HOUR).is_ok());
    assert_eq!(app.users.verify("Anton", TEST_PASSWORD), Ok(2));
    app.users.remove_user_by_id(2, NOW).unwrap();
    let outcome = sign_in(&app, &service(), "Anton", TEST_PASSWORD, NOW + 1, HOUR);
    assert_eq!(outcome, Err(UserUCError::ForbiddenError));
    assert_eq!(app.users.verify("Anton", TEST_PASSWORD), Err(AccessModelError::NotFoundError));
}

#[test]
fn username_is_unique_even_after_disable() {
    let mut app = seeded();
    let again = app.users.create_user(UserForCreation::new("Ivan".to_string(), "x".to_string()), NOW);
    assert_eq!(again, Err(AccessModelError::ConflictError));
    assert_eq!(create_status(&storage_result(again)), 409);
    app.users.remove_user_by_id(1, NOW).unwrap();
    let later = app.users.create_user(UserForCreation::new("Ivan".to_string(), "x".to_string()), NOW);
    assert_eq!(later, Err(AccessModelError::ConflictError));
}

#[test]
fn verification_gives_the_id_of_the_matching_user() {
    let app = seeded();
    assert_eq!(app.users.verificate_default("Ivan", "1234"), Ok(1));
    assert_eq!(app.users.verificate_default("Godzilla", "1234"), Ok(3));
    assert_eq!(app.users.verificate_default("Anton", TEST_PASSWORD_HASH), Ok(2));
}

#[test]
fn roles_are_the_enabled_groups_with_enabled_membership() {
    let mut app = seeded();
    assert_eq!(app.roles_of(2), vec!["GROUP_1".to_string(), "ROLE_AUTH_ADMIN".to_string()]);
    assert_eq!(app.roles_of(1), vec!["GROUP_2".to_string()]);
    assert_eq!(app.roles_of(3), Vec::<String>::new());
    app.unbind_member_with_group(1, 2, NOW).unwrap();
    assert_eq!(app.roles_of(2), vec!["ROLE_AUTH_ADMIN".to_string()]);
    app.groups.disable_by_id(3, NOW).unwrap();
    assert_eq!(app.roles_of(2), Vec::<String>::new());
    app.bind_member_with_group(1, 2, NOW + 1);
    assert_eq!(app.roles_of(2), vec!["GROUP_1".to_string()]);
}

#[test]
fn save_user_in_storage_stamps_with_the_wall_clock() {
    let mut app = RbacStore::new();
    let user = app
        .users
        .save_user_in_storage(UserForCreation::new("tester".to_string(), "test".to_string()))
        .unwrap();
    assert_eq!(user.user_id, 1);
    assert_eq!(user.username, "tester");
    assert!(user.stamp.enabled);
    assert_eq!(user.stamp.created_at, user.stamp.updated_at);
    assert!(user.stamp.created_at > 1_600_000_000_000_000);
    assert_eq!(app.users.verificate_default("tester", "test"), Ok(1));
}

#[test]
fn disable_permission_by_id_reports_a_missing_row() {
    let mut app = RbacStore::new();
    app.permissions.create("PERM_1".to_string(), 5).unwrap();
    assert_eq!(disable_permission_by_id(&mut app, 1), Ok(()));
    let row = app.permissions.find_by_id(1).unwrap();
    assert!(!row.stamp.enabled);
    assert_eq!(row.stamp.created_at, 5);
    assert!(row.stamp.updated_at > 5);
    assert_eq!(disable_permission_by_id(&mut app, 1), Ok(()));
    assert_eq!(app.permissions.find_by_id(1).unwrap(), row);
    let missing = disable_permission_by_id(&mut app, 2);
    assert_eq!(missing, Err(UserUCError::NotFoundError));
    assert_eq!(disable_status(missing), 204);
}

#[test]
fn disable_result_keeps_missing_and_temporary_and_makes_the_rest_fatal() {
    assert_eq!(disable_result(Ok(())), Ok(()));
    assert_eq!(disable_result(Err(AccessModelError::NotFoundError)), Err(UserUCError::NotFoundError));
    assert_eq!(disable_result(Err(AccessModelError::TemporaryError)), Err(UserUCError::TemporaryError));
    assert_eq!(disable_result(Err(AccessModelError::FatalError)), Err(UserUCError::FatalError));
    assert_eq!(disable_result(Err(AccessModelError::ConflictError)), Err(UserUCError::FatalError));
    assert_eq!(disable_status(Err(UserUCError::TemporaryError)), 503);
    assert_eq!(disable_status(Err(UserUCError::FatalError)), 500);
}

#[test]
fn each_error_has_its_status() {
    assert_eq!(error_status(UserUCError::NotFoundError), 404);
    assert_eq!(error_status(UserUCError::ConflictError), 409);
    assert_eq!(error_status(UserUCError::TemporaryError), 503);
    assert_eq!(error_status(UserUCError::FatalError), 500);
    assert_eq!(error_status(UserUCError::ForbiddenError), 403);
    assert_eq!(
        storage_result::<i32>(Err(AccessModelError::ConflictError)),
        Err(UserUCError::ConflictError)
    );
    assert_eq!(
        storage_result::<i32>(Err(AccessModelError::TemporaryError)),
        Err(UserUCError::TemporaryError)
    );
    assert_eq!(storage_result::<i32>(Ok(4)), Ok(4));
}

#[test]
fn hash_password_gives_the_encoded_argon2i_hash() {
    let hash = hash_password("password", b"somesalt").unwrap();
    assert_eq!(hash, TEST_PASSWORD_HASH);
    assert_ne!(hash, "password");
    let other = hash_password("password", b"othersalt").unwrap();
    assert_ne!(other, hash);
    assert!(other.starts_with("$argon2i$v=19$m=4096,t=3,p=1$"));
    assert_eq!(hash_password("password", b"short"), Err(AccessModelError::FatalError));
    assert_eq!(hash_password("password", b""), Err(AccessModelError::FatalError));
}

#[test]
fn a_stored_hash_accepts_its_password_only() {
    assert!(password_matches(TEST_PASSWORD_HASH, "password"));
    assert!(!password_matches(TEST_PASSWORD_HASH, "Password"));
    assert!(!password_matches(TEST_PASSWORD_HASH, ""));
    assert!(!password_matches("password", "password"));
    assert!(!password_matches("1234", "1234"));
    assert!(!password_matches("", ""));
    let fresh = hash_password("s3cret", b"0123456789abcdef").unwrap();
    assert!(password_matches(&fresh, "s3cret"));
    assert!(!password_matches(&fresh, "s3cret "));
}

#[test]
fn hashes_made_under_other_parameters_keep_verifying() {
    let argon2id = "$argon2id$v=19$m=256,t=2,p=1$c29tZXNhbHQ$nf65EOgLrQMR/uIPnA4rEsF5h7TKyQwu9U1bMCHGi/4";
    let config = argon2::Config {
        variant: argon2::Variant::Argon2id,
        mem_cost: 256,
        time_cost: 2,
        ..argon2::Config::original()
    };
    let made = argon2::hash_encoded(b"password", b"somesalt", &config).unwrap();
    assert!(made.starts_with("$argon2id$v=19$m=256,t=2,p=1$c29tZXNhbHQ$"));
    assert_eq!(made.len(), argon2id.len());
    assert!(password_matches(&made, "password"));
    assert!(!password_matches(&made, "passwore"));
}

#[test]
fn only_a_clean_true_counts_as_accepted() {
    assert!(accepted(Ok(true)));
    assert!(!accepted(Ok(false)));
    assert!(!accepted(Err(argon2::Error::DecodingFail)));
    assert!(!accepted(Err(argon2::Error::MemoryTooMuch)));
    assert_eq!(hashed(Ok("abc".to_string())), Ok("abc".to_string()));
    assert_eq!(hashed(Err(argon2::Error::SaltTooShort)), Err(AccessModelError::FatalError));
}

#[test]
fn check_credential_wants_an_enabled_user_and_the_password() {
    assert_eq!(check_credential(7, true, TEST_PASSWORD_HASH, "password"), Ok(7));
    assert_eq!(
        check_credential(7, false, TEST_PASSWORD_HASH, "password"),
        Err(AccessModelError::NotFoundError)
    );
    assert_eq!(check_credential(7, true, TEST_PASSWORD_HASH, "wrong"), Err(AccessModelError::NotFoundError));
    assert_eq!(check_credential(7, true, "garbage", "password"), Err(AccessModelError::NotFoundError));
}

#[test]
fn sign_up_then_sign_in_then_validate_gives_the_same_user() {
    let mut app = seeded();
    let s = service();
    let user = sign_up(&mut app, "tester".to_string(), "test", b"pepper-and-salt", NOW).unwrap();
    assert_eq!(user.user_id, 4);
    assert_eq!(user.username, "tester");
    assert_eq!(user.stamp.enabled, true);
    assert_eq!(user.stamp.created_at, NOW);
    assert_eq!(user.stamp.updated_at, NOW);
    app.bind_member_with_group(3, user.user_id, NOW);

    assert_eq!(app.users.verify("tester", "test"), Ok(4));
    let token = sign_in(&app, &s, "tester", "test", NOW + 1, HOUR).unwrap();
    assert_eq!(token.claims.user_id, 4);
    assert_eq!(s.validate(Some(token.clone()), NOW + 2), Ok((4, vec!["ROLE_AUTH_ADMIN".to_string()])));

    // a role withdrawn after issue stays in the token until it expires
    app.unbind_member_with_group(3, user.user_id, NOW + 3).unwrap();
    assert_eq!(app.roles_of(4), Vec::<String>::new());
    assert_eq!(s.validate(Some(token), NOW + HOUR), Ok((4, vec!["ROLE_AUTH_ADMIN".to_string()])));
}

#[test]
fn sign_up_reports_conflict_and_unusable_salt() {
    let mut app = seeded();
    assert_eq!(
        sign_up(&mut app, "Ivan".to_string(), "pw", b"long enough salt", NOW),
        Err(UserUCError::ConflictError)
    );
    assert_eq!(sign_up(&mut app, "fresh".to_string(), "pw", b"short", NOW), Err(UserUCError::FatalError));
    assert_eq!(sign_up(&mut app, "Ivan".to_string(), "pw", b"short", NOW), Err(UserUCError::FatalError));
    assert_eq!(app.users.find_user_by_id(4), Err(AccessModelError::NotFoundError));
}

#[test]
fn disable_use_cases_leave_bindings_alone() {
    let mut app = seeded();
    let membership = app.group_members.find(1, 2);
    assert_eq!(disable_user_by_id(&mut app, 2, NOW), Ok(()));
    assert_eq!(disable_group_by_id(&mut app, 1, NOW), Ok(()));
    assert_eq!(app.group_members.find(1, 2), membership);
    assert_eq!(app.users.find_user_by_id(2).unwrap().stamp.enabled, false);
    assert_eq!(app.groups.find_by_id(1).unwrap().stamp.enabled, false);
    let missing_user = disable_user_by_id(&mut app, 77, NOW);
    let missing_group = disable_group_by_id(&mut app, 77, NOW);
    assert_eq!(missing_user, Err(UserUCError::NotFoundError));
    assert_eq!(missing_group, Err(UserUCError::NotFoundError));
    assert_eq!(disable_status(missing_user), 204);
    assert_eq!(disable_status(missing_group), 204);
    assert_eq!(disable_status(disable_user_by_id(&mut app, 2, NOW + 9)), 204);
    assert_eq!(app.users.find_user_by_id(2).unwrap().stamp.updated_at, NOW);
}
