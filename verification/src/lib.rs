//! Verified core of the TuhuCar command-line client.

pub mod car;
pub mod cli;
pub mod config;
pub mod decimal;
pub mod error;
pub mod json;
pub mod knowledge;
pub mod mcp;
pub mod output;
pub mod skill;
pub mod text;
pub mod types;
pub mod update;
