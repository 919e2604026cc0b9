//! The use-case orchestrators: each composes the token service, the
//! resolution engine, the authorization engine and the user directory into
//! one boundary operation, with its exact failure ordering.

pub mod auth;
pub mod user_management;
pub mod users;
