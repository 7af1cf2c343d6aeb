use denim::config::important_item::ImportantItemTy;
use denim::error::DenimError;
use denim::permissions::{Permission, PermissionsTarget};
use denim::text::{decimal_i32, list_of_names};

#[test]
fn failures_say_what_happened() {
    assert_eq!(DenimError::OpenDatabase { source: "x".into() }.message(), "Error opening database");
    assert_eq!(
        DenimError::MakeQuery { source: "x".into(), row_not_found: true }.message(),
        "Error making SQL query"
    );
    assert_eq!(
        DenimError::BadEnvVar { source: "x".into(), name: "DB_USER".into() }.message(),
        "Unable to retrieve env var `DB_USER`"
    );
    assert_eq!(
        DenimError::ParseTime { source: "x".into(), original: "so\"on\n".into() }.message(),
        format!("Unable to parse date {:?}", "so\"on\n")
    );
    assert_eq!(
        DenimError::ParseUuid { source: "x".into(), original: "me".into() }.message(),
        "Unable to parse uuid \"me\""
    );
    assert_eq!(
        DenimError::MissingEvent { id: 0xa1a2a3a4b1b2c1c2d1d2d3d4d5d6d7d8 }.message(),
        "Unable to find event with UUID: a1a2a3a4-b1b2-c1c2-d1d2-d3d4d5d6d7d8"
    );
    assert_eq!(
        DenimError::MissingHouseGroup { id: -12 }.message(),
        "Unable to find house with ID: -12"
    );
    assert_eq!(DenimError::GeneratePassword.message(), "Unable to generate password");
    assert_eq!(
        DenimError::MissingImportantItem { item: ImportantItemTy::DateLocaleConfig }.message(),
        "Missing the DateLocaleConfig which still needs to be setup"
    );
    assert_eq!(
        DenimError::InvalidTimezone { source: "unknown zone".into(), tz: "Mars/Base".into() }
            .message(),
        "Invalid timezone \"Mars/Base\" provided from SQL: unknown zone"
    );
    assert_eq!(
        DenimError::InvalidHourCycle { provided: "h24".into() }.message(),
        "Invalid Hour Cycle provided: h24"
    );
    assert_eq!(
        DenimError::InvalidLocale { source: "bad".into(), provided: "xx".into() }.message(),
        "Invalid Locale \"xx\" provided: bad"
    );
}

#[test]
fn denial_names_what_was_needed_and_held() {
    let needed = PermissionsTarget::only(Permission::CrudEvents);
    let found = PermissionsTarget::only(Permission::ViewPhotos)
        .union(PermissionsTarget::only(Permission::SignSelfUp))
        .union(PermissionsTarget::only(Permission::ViewSensitiveDetails));
    assert_eq!(found.names(), vec!["SIGN_SELF_UP", "VIEW_PHOTOS", "VIEW_SENSITIVE_DETAILS"]);
    assert_eq!(
        DenimError::IncorrectPermissions { needed, found }.message(),
        format!(
            "Tried to {:?}, only had {:?}",
            vec!["CRUD_EVENTS"],
            vec!["SIGN_SELF_UP", "VIEW_PHOTOS", "VIEW_SENSITIVE_DETAILS"]
        )
    );
    assert_eq!(
        DenimError::IncorrectPermissions { needed, found: PermissionsTarget::empty() }.message(),
        "Tried to [\"CRUD_EVENTS\"], only had []"
    );
    assert_eq!(PermissionsTarget::all().names().len(), 11);
    assert_eq!(Permission::nth(0), Permission::SignSelfUp);
    assert_eq!(Permission::nth(10).name(), "RUN_ONBOARDING");
}

#[test]
fn lists_and_signed_numbers() {
    assert_eq!(list_of_names(&vec![]), "[]");
    assert_eq!(list_of_names(&vec!["A"]), "[\"A\"]");
    assert_eq!(list_of_names(&vec!["A", "B", "C"]), format!("{:?}", vec!["A", "B", "C"]));
    for n in [0, 1, -1, 42, -4200, i32::MAX, i32::MIN] {
        assert_eq!(decimal_i32(n), n.to_string());
    }
}
