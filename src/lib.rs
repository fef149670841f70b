//! Core of a small project-management and AI-inference HTTP service.
//!
//! Every response of the service is a uniform envelope ([`ApiResponse`]);
//! the handlers in [`service`] compute the payloads from plain values, and
//! the HTTP plumbing around them lives outside this library.

mod clock;
mod envelope;
mod health;
mod ids;
mod inference;
mod json;
mod project;
pub mod service;

pub use clock::Timestamp;
pub use envelope::{lemma_envelope_exclusive, ApiResponse};
pub use ids::is_uuid_v4_text;
pub use health::{dependency_names, HealthCheck, REPORTED_UPTIME_SECS};
pub use inference::{
    describes_model, is_prefix, model_catalog, provider_for, provider_of, starts_with,
    AIInferenceRequest, AIInferenceResponse,
};
pub use json::{entry, JsonValue};
pub use project::{holds_texts, is_some_text, CreateProjectRequest, Project};
