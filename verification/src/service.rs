//! Services that reshape flat joined query rows into nested response trees.

pub mod owner_laws;
pub mod owner_service;
pub mod vet_service;
