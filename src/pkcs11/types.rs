//! What the token driver reports: detected libraries, tokens, certificates.
use vstd::prelude::*;

verus! {

/// A provider library found at a known location.
#[derive(Debug, Clone)]
pub struct DetectedLibrary {
    pub ca_name: String,
    pub path: String,
}

/// A slot that holds a token.
#[derive(Debug, Clone)]
pub struct TokenInfo {
    pub slot_id: u64,
    pub label: String,
    pub manufacturer: String,
    pub model: String,
    pub serial: String,
    pub has_token: bool,
}

/// The signing certificate, as shown to users.
#[derive(Debug, Clone)]
pub struct CertificateInfo {
    pub serial: String,
    pub subject: String,
    pub issuer: String,
    pub valid_from: String,
    pub valid_to: String,
    /// SHA-256 of the DER, lower-case hex.
    pub thumbprint: String,
    /// The DER in standard base64.
    pub der_base64: String,
}

} // verus!
