pub mod agent_basic;
pub mod agents;
pub mod general;
