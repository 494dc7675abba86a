pub mod account;
pub mod amount;
pub mod balance;
pub mod error;
pub mod laws;
pub mod processor;
pub mod transaction;
