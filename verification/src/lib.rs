//! Verified core of the Azure Container Apps (ACA) sandbox provider.

pub mod aca;
pub mod clone_source;
pub mod decimal;
pub mod error;
pub mod exec;
pub mod from_environment;
pub mod laws;
pub mod outside;
pub mod provider;
pub mod sandbox_spec;
pub mod settings;
pub mod shell;
pub mod text;
