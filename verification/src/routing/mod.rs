//! Per-request routing: step kinds, request signals, hard gates, upstream
//! availability and the work-step policy.
pub mod decision;
pub mod early;
pub mod gates;
pub mod signals;
pub mod step_kind;
pub mod upstream_availability;
pub mod work;
