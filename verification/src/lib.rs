//! Turns a sentence into a dispatch decision against a catalog of endpoints.
//!
//! A language model extracts the fields of the sentence and names the
//! endpoint that the sentence means; the library resolves the model's answer
//! to an entry of the catalog and reconciles the fields with the parameters
//! that the entry declares. The work is done by a pipeline of stages that an
//! engine runs in order, with a retry policy for each stage.
//!
//! The library performs no outside work. Where a stage needs a model's
//! answer or a part of the configuration, it says so, and goes on with what
//! it is handed. Every function is verified against its contract.

pub mod analyze_sentence;
pub mod cli;
pub mod config;
pub mod endpoint_client;
pub mod find_closest_endpoint;
pub mod json;
pub mod match_fields;
pub mod matching;
pub mod models;
pub mod prompts;
pub mod providers;
pub mod sentence_service;
pub mod sentence_to_json;
pub mod structured_analysis;
pub mod text;
pub mod utils;
pub mod workflow;
