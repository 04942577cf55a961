//! Verified core of a remote build service: request validation, rate
//! limiting, workspace request flows and the build-container command plans.

pub mod api;
pub mod client;
pub mod codec;
pub mod docker;
pub mod error;
pub mod exit_code;
pub mod rate_limit;
pub mod text;
pub mod validation;
