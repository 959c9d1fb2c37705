use sandbox_backend::records::{role_from_column, role_names, roles_from_db_text, roles_from_names, roles_to_db_text, InvitationStatus, UserRole, UserStatus};

#[test]
fn role_texts_roundtrip() {
    for r in [UserRole::SuperAdmin, UserRole::Owner, UserRole::Client] {
        assert_eq!(UserRole::from_db_str(r.as_db_str()), Some(r));
    }
    assert_eq!(UserRole::SuperAdmin.as_db_str(), "super_admin");
    assert_eq!(UserRole::from_db_str("admin"), None);
    assert_eq!(UserRole::from_db_str("Owner"), None);
}

#[test]
fn status_texts_and_default() {
    for s in [UserStatus::Active, UserStatus::Suspended, UserStatus::Deleted] {
        assert_eq!(UserStatus::from_db_str(s.as_db_str()), s);
    }
    assert_eq!(UserStatus::from_db_str("banned"), UserStatus::Active);
}

#[test]
fn invitation_status_texts_and_default() {
    for s in [InvitationStatus::Pending, InvitationStatus::Accepted, InvitationStatus::Revoked, InvitationStatus::Expired] {
        assert_eq!(InvitationStatus::from_db_str(s.as_db_str()), s);
    }
    assert_eq!(InvitationStatus::Accepted.as_db_str(), "Accepted");
    assert_eq!(InvitationStatus::from_db_str("accepted"), InvitationStatus::Pending);
}

#[test]
fn roles_from_names_skips_unknown() {
    let names = vec!["owner".to_string(), "root".to_string(), "client".to_string()];
    assert_eq!(roles_from_names(&names), vec![UserRole::Owner, UserRole::Client]);
    assert_eq!(role_names(&vec![UserRole::Client, UserRole::SuperAdmin]), vec!["client", "super_admin"]);
}

#[test]
fn roles_json_text() {
    let text = roles_to_db_text(&vec![UserRole::Owner, UserRole::Client]).unwrap();
    assert_eq!(text, "[\"owner\",\"client\"]");
    assert_eq!(roles_to_db_text(&vec![]).unwrap(), "[]");
}

#[test]
fn roles_from_json_text() {
    assert_eq!(roles_from_db_text("[\"super_admin\",\"guest\",\"owner\"]"), vec![UserRole::SuperAdmin, UserRole::Owner]);
    assert_eq!(roles_from_db_text("not json"), vec![]);
    assert_eq!(roles_from_db_text("{\"owner\":1}"), vec![]);
}

#[test]
fn roles_json_roundtrip() {
    let roles = vec![UserRole::Client, UserRole::SuperAdmin, UserRole::Owner];
    let text = roles_to_db_text(&roles).unwrap();
    assert_eq!(roles_from_db_text(&text), roles);
}

#[test]
fn single_role_column() {
    assert_eq!(role_from_column("owner"), UserRole::Owner);
    assert_eq!(role_from_column("super_admin"), UserRole::SuperAdmin);
    assert_eq!(role_from_column("auditor"), UserRole::Client);
}
