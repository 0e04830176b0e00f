//! Execution engine for model-backed agents: prompt construction, the
//! request pipeline's retry policy, typed decoding of model output, and the
//! per-agent state machine that fills the shared fact sheet.
//!
//! Nothing here touches the network. A function that needs outside work
//! returns a description of it, and the caller hands the outcome back.

pub mod ai_functions;
pub mod apis;
pub mod helpers;
pub mod models;
