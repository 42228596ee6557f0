pub mod config;
pub mod text;
pub mod uri;
pub mod pagination;
pub mod error;
pub mod crud;
pub mod relation;
pub mod auth;
