pub mod codec;
pub mod config;
pub mod error;
pub mod instructions;
pub mod keys;
pub mod utils;
pub mod models;
pub mod services;
