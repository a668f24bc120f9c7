//! What the request handlers decide: validation of forms and the answer to
//! each outcome of a query.

pub mod owner_handler;
pub mod pet_handler;
pub mod validator;
pub mod vet_handler;
pub mod visit_handler;
