pub mod config;
pub mod context;
pub mod engine;
pub mod steps;
