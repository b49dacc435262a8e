//! Requests against a collection and their admission.

pub mod types;
pub mod verification;
