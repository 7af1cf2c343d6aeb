//! The failures of the service and the HTTP status each is answered with.

use crate::config::important_item::ImportantItemTy;
use crate::permissions::PermissionsTarget;
use crate::routes::sse::{uuid_hyphenated, uuid_text};
use crate::text::{
    debug_quoted, decimal_i32, list_of_names, list_text, quoted, signed_decimal,
};
use vstd::prelude::*;
use vstd::string::*;

verus! {

/// HTTP 500: the service itself failed.
pub const INTERNAL_SERVER_ERROR: u16 = 500;

/// HTTP 404: what was asked for does not exist.
pub const NOT_FOUND: u16 = 404;

/// HTTP 403: the caller may not do this.
pub const FORBIDDEN: u16 = 403;

/// HTTP 400: the input was malformed.
pub const BAD_REQUEST: u16 = 400;

/// A failure of the service. A `source` is the text of the underlying
/// failure, kept for display.
#[derive(Debug)]
#[allow(inconsistent_fields)]
pub enum DenimError {
    OpenDatabase { source: String },
    GetDatabaseConnection { source: String },
    /// A query failed; `row_not_found` says that it failed only because no
    /// row matched.
    MakeQuery { source: String, row_not_found: bool },
    CommitTransaction { source: String },
    RollbackTransaction { source: String },
    MigrateError { source: String },
    RmpSerdeEncode { source: String },
    RmpSerdeDecode { source: String },
    BadEnvVar { source: String, name: String },
    ParsePort { source: String },
    ParseTime { source: String, original: String },
    ParseUuid { source: String, original: String },
    MissingEvent { id: u128 },
    MissingUser { id: u128 },
    MissingHouseGroup { id: i32 },
    MissingTutorGroup { id: u128 },
    Bcrypt { source: String },
    TowerSession { source: String },
    GeneratePassword,
    UnableToFindUserInfo,
    /// The caller held `found` and needed `needed`.
    IncorrectPermissions { needed: PermissionsTarget, found: PermissionsTarget },
    NoHousesOrNoTutorGroups,
    /// A multipart form could not be read; `status` is the status that the
    /// form reader asks for.
    Multipart { source: String, status: u16 },
    Email { source: String },
    Zip { source: String },
    Csv { source: String },
    S3Creds { source: String },
    S3 { source: String },
    B64 { source: String },
    MissingImportantItem { item: ImportantItemTy },
    InvalidTimezone { source: String, tz: String },
    UnrepresentableTime { source: String },
    BadDateTimeFormatter { source: String },
    InvalidHourCycle { provided: String },
    InvalidCalendarAlgorithm { provided: String },
    InvalidLocale { source: String, provided: String },
    /// An uploaded file is no image; `found_mime` is the kind of file that it
    /// is, where that is known.
    InvalidImage { found_mime: Option<String> },
}

pub type DenimResult<T> = Result<T, DenimError>;

impl DenimError {
    /// The HTTP status that stands for this failure: 403 for a refused
    /// capability, 404 for what is missing, 400 for malformed input, the
    /// form reader's own status for a multipart failure, and 500 for the rest.
    pub open spec fn spec_status_code(&self) -> u16 {
        match self {
            DenimError::MakeQuery { row_not_found, .. } => if *row_not_found {
                NOT_FOUND
            } else {
                INTERNAL_SERVER_ERROR
            },
            DenimError::MissingEvent { .. }
            | DenimError::MissingUser { .. }
            | DenimError::MissingHouseGroup { .. }
            | DenimError::MissingTutorGroup { .. }
            | DenimError::UnableToFindUserInfo => NOT_FOUND,
            DenimError::IncorrectPermissions { .. } => FORBIDDEN,
            DenimError::RmpSerdeDecode { .. }
            | DenimError::ParseTime { .. }
            | DenimError::ParseUuid { .. }
            | DenimError::B64 { .. }
            | DenimError::InvalidHourCycle { .. }
            | DenimError::InvalidCalendarAlgorithm { .. }
            | DenimError::InvalidLocale { .. }
            | DenimError::InvalidImage { .. } => BAD_REQUEST,
            DenimError::Multipart { status, .. } => *status,
            _ => INTERNAL_SERVER_ERROR,
        }
    }

    /// The HTTP status that stands for this failure.
    pub fn status_code(&self) -> (code: u16)
        ensures
            code == self.spec_status_code(),
    {
        match self {
            DenimError::OpenDatabase { .. } | DenimError::GetDatabaseConnection { .. } => INTERNAL_SERVER_ERROR,
            DenimError::MigrateError { .. } => INTERNAL_SERVER_ERROR,
            DenimError::MakeQuery { row_not_found, .. } => {
                if *row_not_found {
                    NOT_FOUND
                } else {
                    INTERNAL_SERVER_ERROR
                }
            },
            DenimError::CommitTransaction { .. } | DenimError::RollbackTransaction { .. } => INTERNAL_SERVER_ERROR,
            DenimError::RmpSerdeEncode { .. } => INTERNAL_SERVER_ERROR,
            DenimError::RmpSerdeDecode { .. } => BAD_REQUEST,
            DenimError::BadEnvVar { .. } => INTERNAL_SERVER_ERROR,
            DenimError::ParsePort { .. } => INTERNAL_SERVER_ERROR,
            DenimError::ParseTime { .. } => BAD_REQUEST,
            DenimError::ParseUuid { .. } => BAD_REQUEST,
            DenimError::MissingEvent { .. } => NOT_FOUND,
            DenimError::MissingUser { .. } => NOT_FOUND,
            DenimError::MissingHouseGroup { .. } => NOT_FOUND,
            DenimError::MissingTutorGroup { .. } => NOT_FOUND,
            DenimError::Bcrypt { .. } => INTERNAL_SERVER_ERROR,
            DenimError::TowerSession { .. } => INTERNAL_SERVER_ERROR,
            DenimError::GeneratePassword => INTERNAL_SERVER_ERROR,
            DenimError::UnableToFindUserInfo => NOT_FOUND,
            DenimError::IncorrectPermissions { .. } => FORBIDDEN,
            DenimError::NoHousesOrNoTutorGroups => INTERNAL_SERVER_ERROR,
            DenimError::Multipart { status, .. } => *status,
            DenimError::Email { .. } => INTERNAL_SERVER_ERROR,
            DenimError::Zip { .. } => INTERNAL_SERVER_ERROR,
            DenimError::Csv { .. } => INTERNAL_SERVER_ERROR,
            DenimError::S3Creds { .. } | DenimError::S3 { .. } => INTERNAL_SERVER_ERROR,
            DenimError::B64 { .. } => BAD_REQUEST,
            DenimError::MissingImportantItem { .. } => INTERNAL_SERVER_ERROR,
            DenimError::InvalidTimezone { .. } => INTERNAL_SERVER_ERROR,
            DenimError::UnrepresentableTime { .. } => INTERNAL_SERVER_ERROR,
            DenimError::BadDateTimeFormatter { .. } => INTERNAL_SERVER_ERROR,
            DenimError::InvalidHourCycle { .. } => BAD_REQUEST,
            DenimError::InvalidCalendarAlgorithm { .. } => BAD_REQUEST,
            DenimError::InvalidLocale { .. } => BAD_REQUEST,
            DenimError::InvalidImage { .. } => BAD_REQUEST,
        }
    }

    /// What this failure says of itself.
    pub open spec fn spec_message(&self) -> Seq<char> {
        match self {
            DenimError::OpenDatabase { .. } => "Error opening database"@,
            DenimError::GetDatabaseConnection { .. } => "Error getting db connection"@,
            DenimError::MakeQuery { .. } => "Error making SQL query"@,
            DenimError::CommitTransaction { .. } => "Error commiting SQL transaction"@,
            DenimError::RollbackTransaction { .. } => "Error rolling back SQL transaction"@,
            DenimError::MigrateError { .. } => "Error migrating DB schema"@,
            DenimError::RmpSerdeEncode { .. } => "Error serialising with rmp_serde"@,
            DenimError::RmpSerdeDecode { .. } => "Error deserialising with rmp_serde"@,
            DenimError::ParsePort { .. } => "Unable to parse IP port"@,
            DenimError::Bcrypt { .. } => "Error with hashing/password verification"@,
            DenimError::TowerSession { .. } => "Error with sessions"@,
            DenimError::Multipart { .. } => "Error with multipart form input"@,
            DenimError::Email { .. } => "Error parsing email address"@,
            DenimError::Zip { .. } => "Error with ZIPs"@,
            DenimError::Csv { .. } => "Error with CSVs"@,
            DenimError::S3Creds { .. } => "Error with S3 Credentials"@,
            DenimError::S3 { .. } => "Error with S3"@,
            DenimError::B64 { .. } => "Error decoding Base64"@,
            DenimError::GeneratePassword => "Unable to generate password"@,
            DenimError::UnableToFindUserInfo => "Tried to get user information, found either no user or the incorrect kind of user"@,
            DenimError::NoHousesOrNoTutorGroups => "Tried to get the new student form, but no houses and/or no tutor groups existed to add them into"@,
            DenimError::BadEnvVar { name, .. } => "Unable to retrieve env var `"@ + name@ + "`"@,
            DenimError::ParseTime { original, .. } => "Unable to parse date "@ + debug_quoted(original@),
            DenimError::ParseUuid { original, .. } => "Unable to parse uuid "@ + debug_quoted(original@),
            DenimError::MissingEvent { id } => "Unable to find event with UUID: "@ + uuid_hyphenated(*id),
            DenimError::MissingUser { id } => "Unable to find user with UUID: "@ + uuid_hyphenated(*id),
            DenimError::MissingHouseGroup { id } => "Unable to find house with ID: "@ + signed_decimal(*id as int),
            DenimError::MissingTutorGroup { id } => "Unable to find tutor group with UUID: "@ + uuid_hyphenated(*id),
            DenimError::IncorrectPermissions { needed, found } => "Tried to "@ + list_text(needed.spec_names()) + ", only had "@ + list_text(found.spec_names()),
            DenimError::MissingImportantItem { item } => "Missing the "@ + item.spec_name() + " which still needs to be setup"@,
            DenimError::InvalidTimezone { source, tz } => "Invalid timezone "@ + debug_quoted(tz@) + " provided from SQL: "@ + source@,
            DenimError::UnrepresentableTime { source } => "Unrepresentable time: "@ + source@,
            DenimError::BadDateTimeFormatter { source } => "Error creating date time formatter: "@ + source@,
            DenimError::InvalidHourCycle { provided } => "Invalid Hour Cycle provided: "@ + provided@,
            DenimError::InvalidCalendarAlgorithm { provided } => "Invalid Calendar Algorithm provided: "@ + provided@,
            DenimError::InvalidLocale { source, provided } => "Invalid Locale "@ + debug_quoted(provided@) + " provided: "@ + source@,
            DenimError::InvalidImage { found_mime } => match found_mime {
                Some(mime) => "Provided file is no image but "@ + mime@,
                None => "Provided file is no image"@,
            },
        }
    }

    /// What this failure says of itself.
    pub fn message(&self) -> (text: String)
        ensures
            text@ == self.spec_message(),
    {
        match self {
            DenimError::OpenDatabase { .. } => String::from_str("Error opening database"),
            DenimError::GetDatabaseConnection { .. } => String::from_str("Error getting db connection"),
            DenimError::MakeQuery { .. } => String::from_str("Error making SQL query"),
            DenimError::CommitTransaction { .. } => String::from_str("Error commiting SQL transaction"),
            DenimError::RollbackTransaction { .. } => String::from_str("Error rolling back SQL transaction"),
            DenimError::MigrateError { .. } => String::from_str("Error migrating DB schema"),
            DenimError::RmpSerdeEncode { .. } => String::from_str("Error serialising with rmp_serde"),
            DenimError::RmpSerdeDecode { .. } => String::from_str("Error deserialising with rmp_serde"),
            DenimError::ParsePort { .. } => String::from_str("Unable to parse IP port"),
            DenimError::Bcrypt { .. } => String::from_str("Error with hashing/password verification"),
            DenimError::TowerSession { .. } => String::from_str("Error with sessions"),
            DenimError::Multipart { .. } => String::from_str("Error with multipart form input"),
            DenimError::Email { .. } => String::from_str("Error parsing email address"),
            DenimError::Zip { .. } => String::from_str("Error with ZIPs"),
            DenimError::Csv { .. } => String::from_str("Error with CSVs"),
            DenimError::S3Creds { .. } => String::from_str("Error with S3 Credentials"),
            DenimError::S3 { .. } => String::from_str("Error with S3"),
            DenimError::B64 { .. } => String::from_str("Error decoding Base64"),
            DenimError::GeneratePassword => String::from_str("Unable to generate password"),
            DenimError::UnableToFindUserInfo => String::from_str("Tried to get user information, found either no user or the incorrect kind of user"),
            DenimError::NoHousesOrNoTutorGroups => String::from_str("Tried to get the new student form, but no houses and/or no tutor groups existed to add them into"),
            DenimError::BadEnvVar { name, .. } => {
                let mut text = String::from_str("Unable to retrieve env var `");
                text.append(name.as_str());
                text.append("`");
                text
            },
            DenimError::ParseTime { original, .. } => {
                let mut text = String::from_str("Unable to parse date ");
                let q = quoted(original.as_str());
                text.append(q.as_str());
                text
            },
            DenimError::ParseUuid { original, .. } => {
                let mut text = String::from_str("Unable to parse uuid ");
                let q = quoted(original.as_str());
                text.append(q.as_str());
                text
            },
            DenimError::MissingEvent { id } => {
                let mut text = String::from_str("Unable to find event with UUID: ");
                let t = uuid_text(*id);
                text.append(t.as_str());
                text
            },
            DenimError::MissingUser { id } => {
                let mut text = String::from_str("Unable to find user with UUID: ");
                let t = uuid_text(*id);
                text.append(t.as_str());
                text
            },
            DenimError::MissingHouseGroup { id } => {
                let mut text = String::from_str("Unable to find house with ID: ");
                let t = decimal_i32(*id);
                text.append(t.as_str());
                text
            },
            DenimError::MissingTutorGroup { id } => {
                let mut text = String::from_str("Unable to find tutor group with UUID: ");
                let t = uuid_text(*id);
                text.append(t.as_str());
                text
            },
            DenimError::IncorrectPermissions { needed, found } => {
                let mut text = String::from_str("Tried to ");
                let n = list_of_names(&needed.names());
                text.append(n.as_str());
                text.append(", only had ");
                let f = list_of_names(&found.names());
                text.append(f.as_str());
                text
            },
            DenimError::MissingImportantItem { item } => {
                let mut text = String::from_str("Missing the ");
                text.append(item.name());
                text.append(" which still needs to be setup");
                text
            },
            DenimError::InvalidTimezone { source, tz } => {
                let mut text = String::from_str("Invalid timezone ");
                let q = quoted(tz.as_str());
                text.append(q.as_str());
                text.append(" provided from SQL: ");
                text.append(source.as_str());
                text
            },
            DenimError::UnrepresentableTime { source } => {
                let mut text = String::from_str("Unrepresentable time: ");
                text.append(source.as_str());
                text
            },
            DenimError::BadDateTimeFormatter { source } => {
                let mut text = String::from_str("Error creating date time formatter: ");
                text.append(source.as_str());
                text
            },
            DenimError::InvalidHourCycle { provided } => {
                let mut text = String::from_str("Invalid Hour Cycle provided: ");
                text.append(provided.as_str());
                text
            },
            DenimError::InvalidCalendarAlgorithm { provided } => {
                let mut text = String::from_str("Invalid Calendar Algorithm provided: ");
                text.append(provided.as_str());
                text
            },
            DenimError::InvalidLocale { source, provided } => {
                let mut text = String::from_str("Invalid Locale ");
                let q = quoted(provided.as_str());
                text.append(q.as_str());
                text.append(" provided: ");
                text.append(source.as_str());
                text
            },
            DenimError::InvalidImage { found_mime } => match found_mime {
                Some(mime) => {
                    let mut text = String::from_str("Provided file is no image but ");
                    text.append(mime.as_str());
                    text
                },
                None => String::from_str("Provided file is no image"),
            },
        }
    }

    /// A refused capability is never answered as a failure of the service.
    pub proof fn denial_is_forbidden(needed: PermissionsTarget, found: PermissionsTarget)
        ensures
            (DenimError::IncorrectPermissions { needed, found }).spec_status_code() == FORBIDDEN,
    {
    }
}

} // verus!
