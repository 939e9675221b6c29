//! One-shot systems: register units of logic against a world, run them
//! by identifier with their cached state, or run them once ad hoc.

pub mod command;
pub mod laws;
pub mod registry;
pub mod system;
pub mod world;
