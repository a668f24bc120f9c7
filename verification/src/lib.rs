//! Pet-clinic management core: pagination, grouping of joined query rows
//! into nested owner/pet/visit and vet/specialty trees, form validation
//! rules, translation lookup and error classification.

pub mod config;
pub mod date;
pub mod domain;
pub mod model;
pub mod ordering;
pub mod service;
pub mod text;
pub mod web;
