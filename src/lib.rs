pub mod account;
pub mod address;
pub mod config;
pub mod offchain;
pub mod report;
pub mod text;
