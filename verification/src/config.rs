//! What the application is configured with.

pub mod i18n;
pub mod json;
pub mod language;
