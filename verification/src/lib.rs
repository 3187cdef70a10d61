//! Juno, the settings of a Hydra node.
//!
//! [`hydra::initial_utxo`] validates the initial UTxO set of an offline head:
//! a JSON document is read into a snapshot ([`hydra::schema`]) and checked
//! entry by entry, and the first violation is reported
//! ([`hydra::error`]). [`hydra::laws`] holds what is proved of validation for
//! every document.
//!
//! [`hydra::run_options`] holds the options a node is started with, and
//! [`views::configure`] how they change with each message of the settings
//! form.

pub mod hydra;
pub mod views;
