//! Building a simulation from its description.
pub mod uk;
