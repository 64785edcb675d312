//! The foundation models that every node carries.
pub mod configuration;
