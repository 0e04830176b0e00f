pub mod aifunc_architect;
pub mod aifunc_managing;
