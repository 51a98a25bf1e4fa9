pub mod contract;
pub mod cosmwasm;
pub mod envelope;
pub mod error;
pub mod msg;
pub mod state;
pub mod text;

pub use crate::error::ContractError;
