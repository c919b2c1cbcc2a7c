pub mod interface;
pub mod rr_core;
pub mod text;
