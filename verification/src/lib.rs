//! Session, authorisation and background-job coordination for a school
//! administration backend.

pub mod auth;
pub mod config;
pub mod data;
pub mod error;
pub mod hub;
pub mod permissions;
pub mod routes;
pub mod state;
pub mod text;
