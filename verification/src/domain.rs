//! The stored entities, as the services and handlers read them.

pub mod owner;
