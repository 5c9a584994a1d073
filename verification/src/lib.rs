//! Verified core of the Response Rule Engine backend: request-body
//! validation rules, the uniform error envelope, pagination arithmetic,
//! component-template default resolution and the plain data model that the
//! HTTP layer exchanges with the library.

pub mod api;
pub mod config;
pub mod cors;
pub mod error;
pub mod export_bundle;
pub mod json;
pub mod models;
pub mod pattern;
pub mod schemas;
pub mod string_map;
pub mod text;
