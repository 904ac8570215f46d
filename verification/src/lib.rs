//! Normalisation of dependency manifests into canonical package descriptors,
//! together with the decisions behind the local configuration of the client.

pub mod config;
pub mod csharp;
pub mod error;
pub mod package;
pub mod path;
pub mod project;
pub mod registry;
