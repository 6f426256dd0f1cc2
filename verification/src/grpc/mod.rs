//! The remote interface of the authentication service.

pub mod auth;
