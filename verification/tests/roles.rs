use backend::auth::roles::{is_authorized, Role};

fn all_roles() -> Vec<Role> {
    vec![Role::Noob, Role::Approver, Role::FacilityManager, Role::Superadmin]
}

#[test]
fn role_names_are_the_stored_names() {
    assert_eq!(Role::Noob.name(), "Noob");
    assert_eq!(Role::Approver.name(), "Approver");
    assert_eq!(Role::FacilityManager.name(), "FacilityManager");
    assert_eq!(Role::Superadmin.name(), "Superadmin");
}

#[test]
fn role_parents() {
    assert_eq!(Role::Noob.daddy(), Role::Noob);
    assert_eq!(Role::Approver.daddy(), Role::Noob);
    assert_eq!(Role::FacilityManager.daddy(), Role::Noob);
    assert_eq!(Role::Superadmin.daddy(), Role::Approver);
}

#[test]
fn only_noob_is_root() {
    assert!(Role::Noob.is_root());
    assert!(!Role::Approver.is_root());
    assert!(!Role::FacilityManager.is_root());
    assert!(!Role::Superadmin.is_root());
}

#[test]
fn root_has_an_empty_chain() {
    assert_eq!(Role::Noob.resolve_daddy(), Vec::<&str>::new());
}

#[test]
fn chains_stop_before_the_root() {
    assert_eq!(Role::Approver.resolve_daddy(), vec!["Approver"]);
    assert_eq!(Role::FacilityManager.resolve_daddy(), vec!["FacilityManager"]);
    assert_eq!(Role::Superadmin.resolve_daddy(), vec!["Superadmin", "Approver"]);
}

#[test]
fn role_from_name_round_trips() {
    for role in all_roles() {
        assert_eq!(Role::from_name(role.name()), Some(role));
    }
    assert_eq!(Role::from_name("noob"), None);
    assert_eq!(Role::from_name("Hacker"), None);
    assert_eq!(Role::from_name(""), None);
}

#[test]
fn every_role_satisfies_itself() {
    for role in all_roles() {
        assert!(is_authorized(role.name(), role));
    }
}

#[test]
fn roles_in_the_chain_satisfy_the_requirement() {
    assert!(is_authorized("Approver", Role::Superadmin));
    assert!(is_authorized("Superadmin", Role::Superadmin));
}

#[test]
fn roles_outside_the_chain_do_not_satisfy_the_requirement() {
    assert!(!is_authorized("Superadmin", Role::Approver));
    assert!(!is_authorized("Noob", Role::Approver));
    assert!(!is_authorized("Noob", Role::Superadmin));
    assert!(!is_authorized("FacilityManager", Role::Superadmin));
    assert!(!is_authorized("FacilityManager", Role::Approver));
    assert!(!is_authorized("Approver", Role::FacilityManager));
    assert!(!is_authorized("Approver", Role::Noob));
    assert!(!is_authorized("Superadmin", Role::Noob));
}

#[test]
fn authorization_is_transitive_on_all_roles() {
    for a in all_roles() {
        for b in all_roles() {
            for c in all_roles() {
                if is_authorized(a.name(), b) && is_authorized(b.name(), c) {
                    assert!(is_authorized(a.name(), c));
                }
            }
        }
    }
}

#[test]
fn authorization_follows_the_chain_exactly() {
    for held in all_roles() {
        for required in all_roles() {
            let in_chain = required.resolve_daddy().contains(&held.name());
            assert_eq!(is_authorized(held.name(), required), held == required || in_chain);
        }
    }
}

#[test]
fn unknown_role_names_authorize_nothing() {
    for required in all_roles() {
        assert!(!is_authorized("Hacker", required));
        assert!(!is_authorized("", required));
        assert!(!is_authorized("approver", required));
    }
}
