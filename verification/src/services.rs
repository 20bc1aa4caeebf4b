//! Services: scanning applications, generating infrastructure, credentials.
pub mod auth;
pub mod database;
pub mod docker;
pub mod git;
pub mod infra_generator;
pub mod scanner;
