//! The settings form, without its widgets.

pub mod configure;
