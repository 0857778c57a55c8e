//! Authentication, user administration and start-up rules of the
//! restaurant inventory desktop application.

pub mod errors;
pub mod text;
pub mod auth;
pub mod auth_service;
pub mod status;
pub mod logging;
