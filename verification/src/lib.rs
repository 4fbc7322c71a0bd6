//! Error classification and diagnostic logging for a reverse proxy in front
//! of a local model-inference backend: a closed error taxonomy, keyword
//! rules that tell a transient "model still loading" condition from genuine
//! failures, a timestamped console logger behind an enable switch, and the
//! boundary helpers that feed them (client-IP extraction and configuration
//! syntax checks).

pub mod classify;
pub mod config;
pub mod error;
pub mod logging;
pub mod render;
pub mod request;
pub mod text;
