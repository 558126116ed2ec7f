//! Edge/cloud LLM request routing: the decisions, counters and text heuristics
//! of the gateway, each stated by its contract.
pub mod api;
pub mod clock;
pub mod config;
pub mod edge_load;
pub mod error;
pub mod experience;
pub mod multimodal;
pub mod openai;
pub mod routing;
pub mod stats;
pub mod text;
pub mod upstream;
