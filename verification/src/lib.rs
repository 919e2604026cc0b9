//! Authentication and user-management core: token issuance and verification,
//! OAuth account resolution, role-based authorization, and the use cases
//! composing them over an in-memory user directory.

pub mod errors;
pub mod user;
pub mod dtos;
pub mod directory;
pub mod password;
pub mod token;
pub mod authorization;
pub mod requests;
pub mod resolution;
pub mod oauth;
pub mod usecases;
pub mod response;

pub use errors::AppError;
