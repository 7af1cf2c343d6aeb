use denim::auth::{AuthUtilities, DenimSession, PasswordUserId};
use denim::data::student_groups::{HouseGroup, TutorGroup};
use denim::data::user::{Role, User, UserKind};
use denim::error::{DenimError, FORBIDDEN};
use denim::permissions::{
    Permission, PermissionsTarget, ALL_BITS, CRUD_ADMINS, CRUD_EVENTS, IMPORT_CSVS, SIGN_SELF_UP,
    VIEW_PHOTOS, VIEW_SENSITIVE_DETAILS,
};

fn user_of(kind: UserKind) -> User {
    User {
        id: 7,
        first_name: "Jackson".to_string(),
        pref_name: Some("Jack".to_string()),
        surname: "Programmerson".to_string(),
        email: "jack@example.org".to_string(),
        bcrypt_hashed_password: None,
        access_token: None,
        current_password_is_default: true,
        kind,
    }
}

fn student_kind() -> UserKind {
    UserKind::Student {
        tutor_group: TutorGroup {
            id: 3,
            staff_member: Box::new(user_of(UserKind::Staff)),
            house_id: 1,
        },
        house: HouseGroup { id: 1, name: "Lion".to_string() },
        events_participated: vec![],
    }
}

#[test]
fn role_table_is_enumerated() {
    assert_eq!(UserKind::User.get_permissions().bits(), VIEW_PHOTOS | VIEW_SENSITIVE_DETAILS);
    assert_eq!(
        student_kind().get_permissions().bits(),
        VIEW_PHOTOS | SIGN_SELF_UP | VIEW_SENSITIVE_DETAILS
    );
    assert_eq!(UserKind::Staff.get_permissions().bits(), ALL_BITS & !IMPORT_CSVS & !CRUD_ADMINS);
    assert_eq!(UserKind::Admin.get_permissions().bits(), ALL_BITS);
    assert_eq!(UserKind::Admin.get_permissions().bits(), 0x07ff);
    assert_eq!(UserKind::Staff.get_permissions().bits(), 0x06bf);
    assert_eq!(student_kind().get_permissions().bits(), 0x0221);
}

#[test]
fn admin_holds_staff_holds_student() {
    let admin = UserKind::Admin.get_permissions();
    let staff = UserKind::Staff.get_permissions();
    let student = student_kind().get_permissions();
    let plain = UserKind::User.get_permissions();
    assert!(admin.contains(staff));
    assert!(staff.contains(student));
    assert!(student.contains(plain));
    assert!(!staff.contains(admin));
    assert!(!student.contains(staff));
}

#[test]
fn student_is_denied_crud_events() {
    let session = DenimSession { user: Some(user_of(student_kind())) };
    let needed = PermissionsTarget::only(Permission::CrudEvents);
    assert!(!session.can(needed));
    match session.ensure_can(needed) {
        Err(DenimError::IncorrectPermissions { needed: n, found }) => {
            assert_eq!(n.bits(), CRUD_EVENTS);
            assert_eq!(found, student_kind().get_permissions());
            assert!(found.contains(PermissionsTarget::only(Permission::SignSelfUp)));
            assert_eq!(
                DenimError::IncorrectPermissions { needed: n, found }.status_code(),
                FORBIDDEN
            );
        }
        other => panic!("expected a denial, got {:?}", other),
    }
}

#[test]
fn staff_may_crud_events_and_admin_may_import() {
    let staff = DenimSession { user: Some(user_of(UserKind::Staff)) };
    assert!(staff.ensure_can(PermissionsTarget::only(Permission::CrudEvents)).is_ok());
    assert!(staff.ensure_can(PermissionsTarget::only(Permission::ImportCsvs)).is_err());
    let admin = DenimSession { user: Some(user_of(UserKind::Admin)) };
    assert!(admin.can(PermissionsTarget::all()));
}

#[test]
fn nobody_holds_nothing() {
    let session = DenimSession { user: None };
    assert!(session.found().is_empty());
    assert!(!session.can(PermissionsTarget::only(Permission::ViewPhotos)));
    assert!(session.can(PermissionsTarget::empty()));
    match session.ensure_can(PermissionsTarget::only(Permission::ExportCsvs)) {
        Err(DenimError::IncorrectPermissions { needed, found }) => {
            assert_eq!(needed, PermissionsTarget::only(Permission::ExportCsvs));
            assert_eq!(found, PermissionsTarget::empty());
        }
        other => panic!("expected a denial, got {:?}", other),
    }
}

#[test]
fn set_operations_on_bits() {
    let a = PermissionsTarget::from_bits_truncate(0xffff);
    assert_eq!(a.bits(), 0x07ff);
    assert_eq!(a, PermissionsTarget::all());
    let b = PermissionsTarget::from_bits_truncate(CRUD_EVENTS | IMPORT_CSVS);
    let c = PermissionsTarget::from_bits_truncate(IMPORT_CSVS | CRUD_ADMINS);
    assert_eq!(b.union(c).bits(), CRUD_EVENTS | IMPORT_CSVS | CRUD_ADMINS);
    assert_eq!(b.intersection(c).bits(), IMPORT_CSVS);
    assert_eq!(b.difference(c).bits(), CRUD_EVENTS);
    assert!(b.union(c).contains(b));
    assert!(!b.contains(c));
    assert!(PermissionsTarget::empty().is_empty());
    assert!(!b.is_empty());
}

#[test]
fn names_are_shown() {
    assert_eq!(user_of(UserKind::Staff).name(), "Jack Programmerson");
    assert_eq!(user_of(student_kind()).name(), "Jack P");
    let mut plain = user_of(UserKind::User);
    plain.pref_name = None;
    assert_eq!(plain.name(), "Jackson Programmerson");
    let mut nameless = user_of(student_kind());
    nameless.surname = String::new();
    assert_eq!(nameless.name(), "Jack ");
}

#[test]
fn password_update_keeps_the_user() {
    let updated = PasswordUserId::FullUser(user_of(UserKind::Staff))
        .with_password("hash".to_string(), false);
    assert_eq!(updated.id(), 7);
    match updated {
        PasswordUserId::FullUser(u) => {
            assert_eq!(u.bcrypt_hashed_password.as_deref(), Some("hash"));
            assert!(!u.current_password_is_default);
            assert_eq!(u.email, "jack@example.org");
        }
        PasswordUserId::JustId(_) => panic!("the whole user was handed in"),
    }
    let bare = PasswordUserId::JustId(9).with_password("hash".to_string(), true);
    assert_eq!(bare.id(), 9);
}

#[test]
fn first_membership_counts() {
    assert_eq!(Role::of_membership(true, true, true), Role::Admin);
    assert_eq!(Role::of_membership(false, true, true), Role::Staff);
    assert_eq!(Role::of_membership(false, false, true), Role::Student);
    assert_eq!(Role::of_membership(false, false, false), Role::User);
    assert_eq!(student_kind().role(), Role::Student);
    for role in [Role::User, Role::Student, Role::Staff, Role::Admin] {
        let held = role.get_permissions();
        assert!(Role::Admin.get_permissions().contains(held));
    }
    assert_eq!(Role::Student.get_permissions(), student_kind().get_permissions());
    assert_eq!(UserKind::Admin.role(), Role::Admin);
}
