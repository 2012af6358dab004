//! Core of a validating reverse proxy for HTTP APIs described by an OpenAPI
//! document: route resolution, reference resolution, a structural JSON
//! validator, the request/response validation pipelines, and the testcase
//! ledger that the pipelines feed.

pub mod correlate;
pub mod json;
pub mod laws;
pub mod ledger;
pub mod parse;
pub mod pipeline;
pub mod proxy;
pub mod record;
pub mod route;
pub mod schema;
pub mod text;
pub mod validate;
