//! The PKCS#11 token driver: provider library locations and checks,
//! certificate chains, and the session manager.
pub mod helpers;
pub mod library_paths;
pub mod chain;
pub mod types;
pub mod manager;

pub use manager::TokenManager;
pub use types::{CertificateInfo, DetectedLibrary, TokenInfo};
