//! An in-memory user registry: validated user records, a repository with a
//! unique e-mail index, and a service layer with pagination and search.

pub mod chance;
pub mod clock;
pub mod error;
pub mod functional;
pub mod laws;
pub mod profile;
pub mod registry;
pub mod reports;
pub mod repository;
pub mod role;
pub mod service;
pub mod status;
pub mod string_map;
pub mod text;
pub mod user;
pub mod validation;
