//! Verified core of the Umbrella backup application: application
//! identity and versioning rules, and the secret-storage requests that the
//! application sends to the desktop secret service.

pub mod config;
pub mod secrets;
pub mod version;
