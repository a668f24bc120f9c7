//! Plain response models shared by the services and the web layer.

pub mod app_error;
pub mod error_response;
pub mod page;
