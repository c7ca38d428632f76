use backend::admin::{change_role, generate_superadmin, users, with_role, AdminError};
use backend::auth::roles::Role;
use backend::auth::AuthToken;
use backend::db::table::{Reservations, Users};
use backend::db::{acquisition, Acquisition, Table};
use backend::models::User;

fn user(name: &str, email: &str, role: &str) -> User {
    User { name: name.to_string(), email: email.to_string(), role: role.to_string() }
}

fn superadmin() -> AuthToken {
    AuthToken::from_user(user("Root", "root@example.org", "Superadmin"), Role::Superadmin)
}

fn set_role(
    store: &mut Vec<(String, User)>,
    email: &str,
    new_role: &str,
    usr: &AuthToken,
) -> Result<(), AdminError> {
    change_role(new_role, usr)?;
    let at = store.iter().position(|(key, _)| key == email);
    if let Some(at) = at {
        let (key, current) = store.remove(at);
        if let Some(next) = with_role(Some(current), new_role) {
            store.insert(at, (key, next));
        }
    }
    Ok(())
}

#[test]
fn role_outside_the_list_is_rejected() {
    let mut store = vec![("ann@example.org".to_string(), user("Ann", "ann@example.org", "Noob"))];
    let before = store.clone();
    assert_eq!(
        set_role(&mut store, "ann@example.org", "Hacker", &superadmin()),
        Err(AdminError::UnknownRole)
    );
    assert_eq!(store, before);
}

#[test]
fn role_in_the_list_is_assigned() {
    let mut store = vec![("ann@example.org".to_string(), user("Ann", "ann@example.org", "Noob"))];
    assert_eq!(set_role(&mut store, "ann@example.org", "Approver", &superadmin()), Ok(()));
    assert_eq!(
        store,
        vec![("ann@example.org".to_string(), user("Ann", "ann@example.org", "Approver"))]
    );
    assert_eq!(set_role(&mut store, "bob@example.org", "Approver", &superadmin()), Ok(()));
    assert_eq!(store.len(), 1);
}

#[test]
fn each_role_name_can_be_assigned() {
    for name in ["Noob", "Superadmin", "Approver", "FacilityManager"] {
        assert_eq!(change_role(name, &superadmin()), Ok(()));
    }
    assert_eq!(change_role("approver", &superadmin()), Err(AdminError::UnknownRole));
    assert_eq!(change_role("", &superadmin()), Err(AdminError::UnknownRole));
}

#[test]
fn changing_roles_needs_a_token_for_superadmins() {
    let approver = AuthToken::from_user(user("Bob", "bob@example.org", "Approver"), Role::Approver);
    assert_eq!(change_role("Noob", &approver), Err(AdminError::Forbidden));
    assert_eq!(change_role("Hacker", &approver), Err(AdminError::Forbidden));
}

#[test]
fn with_role_replaces_the_role_only() {
    let changed = with_role(Some(user("Ann", "ann@example.org", "Noob")), "Approver");
    assert_eq!(changed, Some(user("Ann", "ann@example.org", "Approver")));
    assert_eq!(with_role(None, "Approver"), None);
}

#[test]
fn superadmin_is_made_with_the_right_secret() {
    let made = generate_superadmin("root@example.org".to_string(), "s3cret", "s3cret");
    assert_eq!(made, Ok(user("Superadmin", "root@example.org", "Superadmin")));
}

#[test]
fn superadmin_is_refused_with_another_secret() {
    assert_eq!(
        generate_superadmin("root@example.org".to_string(), "S3cret", "s3cret"),
        Err(AdminError::WrongSecret)
    );
    assert_eq!(
        generate_superadmin("root@example.org".to_string(), "", "s3cret"),
        Err(AdminError::WrongSecret)
    );
    assert_eq!(
        generate_superadmin("root@example.org".to_string(), "s3cret ", "s3cret"),
        Err(AdminError::WrongSecret)
    );
}

#[test]
fn users_are_listed_for_superadmins_only() {
    let all = vec![("ann@example.org".to_string(), user("Ann", "ann@example.org", "Noob"))];
    assert_eq!(users(all.clone(), &superadmin()), Ok(all.clone()));
    let noob = AuthToken::from_user(user("Ann", "ann@example.org", "Noob"), Role::Noob);
    assert_eq!(users(all, &noob), Err(AdminError::Forbidden));
}

#[test]
fn partitions_have_their_names() {
    assert_eq!(Reservations::name(), "reservation");
    assert_eq!(Users::name(), "user");
}

#[test]
fn partitions_are_opened_the_common_way() {
    assert!(!Reservations::has_get_tree());
    assert!(!Users::has_get_tree());
    assert_eq!(acquisition::<Reservations>(), Acquisition::Common);
    assert_eq!(acquisition::<Users>(), Acquisition::Common);
}

#[test]
fn failure_to_open_is_reported_by_way() {
    assert_eq!(Acquisition::Common.failure(), "failed to load database");
    assert_eq!(Acquisition::Custom.failure(), "failed to run custom db-loading function");
}
