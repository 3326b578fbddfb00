//! Core library of a project scaffolder: typed template parameters, manifest
//! validation, parameter collection, and directory-tree rendering with
//! variable substitution.

pub mod cache;
pub mod collect;
pub mod discovery;
pub mod download;
pub mod error;
pub mod interactive;
pub mod render;
pub mod schema;
pub mod strutil;
pub mod validator;
mod trusted;
