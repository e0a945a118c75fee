pub mod contract;
pub mod error;
pub mod lifecycle;
pub mod math;
pub mod msg;
pub mod state;
pub mod withdrawal;
