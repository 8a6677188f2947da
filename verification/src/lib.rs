//! A verified request-translation layer for a movies CRUD service.
//!
//! The library turns an inbound HTTP request (method, URI, body bytes) into
//! either an immediate JSON reply or a description of the single outbound
//! request to make against the backing data API, and shapes the backend's
//! response into the JSON envelope returned to the caller.

pub mod config;
pub mod envelope;
pub mod fields;
pub mod laws;
pub mod numbers;
pub mod outcome;
pub mod plan;
pub mod query;
pub mod text;

pub use config::Config;
pub use fields::MovieFields;
pub use outcome::{finish_delete, finish_get, finish_patch, finish_post, BackendResponse};
pub use plan::{plan_request, OutboundRequest, Plan, Verb};
