pub mod agent_architect;
pub mod agent_traits;
