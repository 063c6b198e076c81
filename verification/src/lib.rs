pub mod contract;
pub mod engine;
pub mod error;
pub mod laws;
pub mod msg;
pub mod state;
