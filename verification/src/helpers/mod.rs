pub mod general;
pub mod json;
