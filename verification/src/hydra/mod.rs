//! The Hydra node's inputs: its run options, and the initial UTxO document
//! with its validation.

pub mod decimal;
pub mod document;
pub mod error;
pub mod hex;
pub mod initial_utxo;
pub mod json;
pub mod laws;
pub mod run_options;
pub mod schema;
pub mod snapshot;
pub mod utxo_ref;
