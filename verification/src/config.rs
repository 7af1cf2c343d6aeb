//! Run-time configuration of the service.

pub mod auth;
pub mod date_locale;
pub mod db;
pub mod important_item;
