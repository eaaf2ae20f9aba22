//! Verified core of `clai`: turning a natural-language request into a checked shell command
//! proposal, the safety policy that runs before any execution, and the decisions around it.

pub mod text;
pub mod error;
pub mod schema;
pub mod path;
pub mod policy;
pub mod presentation;
pub mod interactive_history;
pub mod config;
pub mod interactive_mode;
pub mod stream_strategy;
pub mod ask_exit;
pub mod migrate;
pub mod session;
pub mod host_context;
pub mod runtime_tooling;
pub mod engine;
pub mod ephemeral_script;
pub mod registry;
pub mod trusted_store;
pub mod flow;
pub mod toml_doc;
pub mod cli_output;
pub mod tty;
pub mod cloud;
pub mod digest;
pub mod executor;
