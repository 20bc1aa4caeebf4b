//! Verified core of a home-lab Docker Compose application manager.
pub mod commands;
pub mod config;
pub mod models;
pub mod paths;
pub mod services;
pub mod text;
