//! Authentication and access-control core of a note-taking service:
//! validated domain values, password hashing, credential validation,
//! session gating and a sliding-window rate limiter.

pub mod authentication;
pub mod domain;
pub mod middleware;
pub mod routes;
pub mod telemetry;
