//! Error codes shared with the certificate-authority signing plugins, and the
//! library's error type.
use vstd::prelude::*;
use vstd::string::StringExecFns;

verus! {

/// Signing result codes; the numbers are part of an external contract.
#[derive(Debug, Clone, Copy, PartialEq, Eq, Structural)]
pub enum SigningErrorCode {
    /// Signing successful.
    Success,
    /// Empty or invalid input data.
    InvalidInput,
    /// Certificate not found.
    CertificateNotFound,
    /// Signing operation failed.
    SigningFailed,
    /// Private key not found on the token.
    PrivateKeyNotFound,
    /// Unknown or unspecified error.
    UnknownError,
    /// Page parameter missing.
    PageParameterMissing,
    /// Invalid page number for the signature placement.
    InvalidSignaturePage,
    /// Token or smart card not found.
    TokenNotFound,
    /// Cannot reference the token card.
    TokenReferenceError,
    /// Input holds invalid existing signatures.
    InvalidExistingSignature,
    /// The user cancelled the operation.
    UserCancelled,
}

/// The number of a signing result code.
pub open spec fn signing_code_value(c: SigningErrorCode) -> i32 {
    match c {
        SigningErrorCode::Success => 0,
        SigningErrorCode::InvalidInput => 1,
        SigningErrorCode::CertificateNotFound => 2,
        SigningErrorCode::SigningFailed => 3,
        SigningErrorCode::PrivateKeyNotFound => 4,
        SigningErrorCode::UnknownError => 5,
        SigningErrorCode::PageParameterMissing => 6,
        SigningErrorCode::InvalidSignaturePage => 7,
        SigningErrorCode::TokenNotFound => 8,
        SigningErrorCode::TokenReferenceError => 9,
        SigningErrorCode::InvalidExistingSignature => 10,
        SigningErrorCode::UserCancelled => 11,
    }
}

impl SigningErrorCode {
    /// The numeric code.
    pub fn code(&self) -> (r: i32)
        ensures
            r == signing_code_value(*self),
            0 <= r <= 11,
    {
        match self {
            SigningErrorCode::Success => 0,
            SigningErrorCode::InvalidInput => 1,
            SigningErrorCode::CertificateNotFound => 2,
            SigningErrorCode::SigningFailed => 3,
            SigningErrorCode::PrivateKeyNotFound => 4,
            SigningErrorCode::UnknownError => 5,
            SigningErrorCode::PageParameterMissing => 6,
            SigningErrorCode::InvalidSignaturePage => 7,
            SigningErrorCode::TokenNotFound => 8,
            SigningErrorCode::TokenReferenceError => 9,
            SigningErrorCode::InvalidExistingSignature => 10,
            SigningErrorCode::UserCancelled => 11,
        }
    }

    /// The variant's name.
    #[verifier::allow_in_spec]
    pub fn name(&self) -> &'static str
        returns
            match self {
                SigningErrorCode::Success => "Success",
                SigningErrorCode::InvalidInput => "InvalidInput",
                SigningErrorCode::CertificateNotFound => "CertificateNotFound",
                SigningErrorCode::SigningFailed => "SigningFailed",
                SigningErrorCode::PrivateKeyNotFound => "PrivateKeyNotFound",
                SigningErrorCode::UnknownError => "UnknownError",
                SigningErrorCode::PageParameterMissing => "PageParameterMissing",
                SigningErrorCode::InvalidSignaturePage => "InvalidSignaturePage",
                SigningErrorCode::TokenNotFound => "TokenNotFound",
                SigningErrorCode::TokenReferenceError => "TokenReferenceError",
                SigningErrorCode::InvalidExistingSignature => "InvalidExistingSignature",
                SigningErrorCode::UserCancelled => "UserCancelled",
            },
    {
        match self {
            SigningErrorCode::Success => "Success",
            SigningErrorCode::InvalidInput => "InvalidInput",
            SigningErrorCode::CertificateNotFound => "CertificateNotFound",
            SigningErrorCode::SigningFailed => "SigningFailed",
            SigningErrorCode::PrivateKeyNotFound => "PrivateKeyNotFound",
            SigningErrorCode::UnknownError => "UnknownError",
            SigningErrorCode::PageParameterMissing => "PageParameterMissing",
            SigningErrorCode::InvalidSignaturePage => "InvalidSignaturePage",
            SigningErrorCode::TokenNotFound => "TokenNotFound",
            SigningErrorCode::TokenReferenceError => "TokenReferenceError",
            SigningErrorCode::InvalidExistingSignature => "InvalidExistingSignature",
            SigningErrorCode::UserCancelled => "UserCancelled",
        }
    }
}

/// Certificate validation codes; the numbers are part of an external contract.
#[derive(Debug, Clone, Copy, PartialEq, Eq, Structural)]
pub enum CertValidationCode {
    /// The certificate is valid.
    Valid,
    /// Unknown validation error.
    UnknownError,
    /// The certificate has expired.
    Expired,
    /// The certificate is not yet valid.
    NotYetValid,
    /// The certificate has been revoked.
    Revoked,
    /// The certificate cannot be used for signing.
    CannotSign,
    /// The revocation check failed.
    RevocationCheckFailed,
    /// The certificate is not from a trusted CA.
    UntrustedCA,
    /// The certificate information cannot be retrieved.
    CertInfoUnavailable,
    /// The CA certificate information cannot be retrieved.
    CACertInfoUnavailable,
    /// No OCSP server URL was found.
    OCSPUrlNotFound,
}

/// The number of a certificate validation code.
pub open spec fn cert_code_value(c: CertValidationCode) -> i32 {
    match c {
        CertValidationCode::Valid => 0,
        CertValidationCode::UnknownError => 1,
        CertValidationCode::Expired => 2,
        CertValidationCode::NotYetValid => 3,
        CertValidationCode::Revoked => 4,
        CertValidationCode::CannotSign => 5,
        CertValidationCode::RevocationCheckFailed => 6,
        CertValidationCode::UntrustedCA => 7,
        CertValidationCode::CertInfoUnavailable => 8,
        CertValidationCode::CACertInfoUnavailable => 9,
        CertValidationCode::OCSPUrlNotFound => 10,
    }
}

impl CertValidationCode {
    /// The numeric code.
    pub fn code(&self) -> (r: i32)
        ensures
            r == cert_code_value(*self),
            0 <= r <= 10,
    {
        match self {
            CertValidationCode::Valid => 0,
            CertValidationCode::UnknownError => 1,
            CertValidationCode::Expired => 2,
            CertValidationCode::NotYetValid => 3,
            CertValidationCode::Revoked => 4,
            CertValidationCode::CannotSign => 5,
            CertValidationCode::RevocationCheckFailed => 6,
            CertValidationCode::UntrustedCA => 7,
            CertValidationCode::CertInfoUnavailable => 8,
            CertValidationCode::CACertInfoUnavailable => 9,
            CertValidationCode::OCSPUrlNotFound => 10,
        }
    }

    /// The variant's name.
    #[verifier::allow_in_spec]
    pub fn name(&self) -> &'static str
        returns
            match self {
                CertValidationCode::Valid => "Valid",
                CertValidationCode::UnknownError => "UnknownError",
                CertValidationCode::Expired => "Expired",
                CertValidationCode::NotYetValid => "NotYetValid",
                CertValidationCode::Revoked => "Revoked",
                CertValidationCode::CannotSign => "CannotSign",
                CertValidationCode::RevocationCheckFailed => "RevocationCheckFailed",
                CertValidationCode::UntrustedCA => "UntrustedCA",
                CertValidationCode::CertInfoUnavailable => "CertInfoUnavailable",
                CertValidationCode::CACertInfoUnavailable => "CACertInfoUnavailable",
                CertValidationCode::OCSPUrlNotFound => "OCSPUrlNotFound",
            },
    {
        match self {
            CertValidationCode::Valid => "Valid",
            CertValidationCode::UnknownError => "UnknownError",
            CertValidationCode::Expired => "Expired",
            CertValidationCode::NotYetValid => "NotYetValid",
            CertValidationCode::Revoked => "Revoked",
            CertValidationCode::CannotSign => "CannotSign",
            CertValidationCode::RevocationCheckFailed => "RevocationCheckFailed",
            CertValidationCode::UntrustedCA => "UntrustedCA",
            CertValidationCode::CertInfoUnavailable => "CertInfoUnavailable",
            CertValidationCode::CACertInfoUnavailable => "CACertInfoUnavailable",
            CertValidationCode::OCSPUrlNotFound => "OCSPUrlNotFound",
        }
    }
}

/// The library's error.
#[allow(inconsistent_fields)]
#[derive(Debug, Clone)]
pub enum ESignError {
    /// A failure of the token provider.
    Pkcs11(String),
    /// The provider library was built for another CPU than the host.
    LibraryArchitectureMismatch {
        library_arch: String,
        host_arch: String,
        library_path: String,
        guidance: String,
    },
    /// A failure while reading, preparing or splicing the PDF.
    Pdf(String),
    /// A failure of the timestamp authority exchange.
    Tsa(String),
    /// A failure to read or write a file.
    Io(String),
    /// A signing failure with its plugin-compatible code.
    Signing { code: SigningErrorCode, message: String },
    /// A certificate validation failure with its code.
    CertValidation { code: CertValidationCode, message: String },
}

impl ESignError {
    /// The human-readable message: a prefix naming the kind of failure,
    /// followed by the details it carries.
    pub fn to_string(&self) -> (r: String)
        ensures
            self matches ESignError::Pkcs11(m) ==> r@ == "PKCS#11 error: "@ + m@,
            self matches ESignError::Pdf(m) ==> r@ == "PDF error: "@ + m@,
            self matches ESignError::Tsa(m) ==> r@ == "TSA error: "@ + m@,
            self matches ESignError::Io(m) ==> r@ == "IO error: "@ + m@,
            self matches ESignError::LibraryArchitectureMismatch { library_arch, host_arch, guidance, .. }
                ==> r@ == "Library architecture mismatch: "@ + library_arch@ + " library cannot run on "@
                + host_arch@ + " system. "@ + guidance@,
            self matches ESignError::Signing { code, message } ==> r@ == "Signing error (code "@
                + code.name()@ + "): "@ + message@,
            self matches ESignError::CertValidation { code, message } ==> r@
                == "Certificate validation error (code "@ + code.name()@ + "): "@ + message@,
    {
        match self {
            ESignError::Pkcs11(m) => String::from_str("PKCS#11 error: ").concat(m.as_str()),
            ESignError::LibraryArchitectureMismatch { library_arch, host_arch, guidance, .. } => {
                String::from_str("Library architecture mismatch: ").concat(library_arch.as_str())
                    .concat(" library cannot run on ").concat(host_arch.as_str())
                    .concat(" system. ").concat(guidance.as_str())
            },
            ESignError::Pdf(m) => String::from_str("PDF error: ").concat(m.as_str()),
            ESignError::Tsa(m) => String::from_str("TSA error: ").concat(m.as_str()),
            ESignError::Io(m) => String::from_str("IO error: ").concat(m.as_str()),
            ESignError::Signing { code, message } => String::from_str("Signing error (code ").concat(
                code.name(),
            ).concat("): ").concat(message.as_str()),
            ESignError::CertValidation { code, message } => String::from_str(
                "Certificate validation error (code ",
            ).concat(code.name()).concat("): ").concat(message.as_str()),
        }
    }
}

/// A result in the plugin-compatible response shape.
#[derive(Debug, Clone)]
pub struct SigningResult {
    pub code: i32,
    pub data: String,
    pub error: String,
}

impl SigningResult {
    /// A success carrying `data`.
    pub fn success(data: String) -> (r: Self)
        ensures
            r.code == 0,
            r.data@ == data@,
            r.error@.len() == 0,
    {
        SigningResult { code: 0, data, error: String::new() }
    }

    /// A failure with `code` and `message`.
    pub fn error(code: SigningErrorCode, message: &str) -> (r: Self)
        ensures
            r.code == signing_code_value(code),
            r.data@.len() == 0,
            r.error@ == message@,
    {
        SigningResult { code: code.code(), data: String::new(), error: String::from_str(message) }
    }
}

} // verus!
