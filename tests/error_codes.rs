use esign_core::error::{CertValidationCode, ESignError, SigningErrorCode, SigningResult};

#[test]
fn test_signing_error_code_values() {
    assert_eq!(SigningErrorCode::Success as i32, 0);
    assert_eq!(SigningErrorCode::InvalidInput as i32, 1);
    assert_eq!(SigningErrorCode::CertificateNotFound as i32, 2);
    assert_eq!(SigningErrorCode::SigningFailed as i32, 3);
    assert_eq!(SigningErrorCode::PrivateKeyNotFound as i32, 4);
    assert_eq!(SigningErrorCode::UnknownError as i32, 5);
    assert_eq!(SigningErrorCode::PageParameterMissing as i32, 6);
    assert_eq!(SigningErrorCode::InvalidSignaturePage as i32, 7);
    assert_eq!(SigningErrorCode::TokenNotFound as i32, 8);
    assert_eq!(SigningErrorCode::TokenReferenceError as i32, 9);
    assert_eq!(SigningErrorCode::InvalidExistingSignature as i32, 10);
    assert_eq!(SigningErrorCode::UserCancelled as i32, 11);
}

#[test]
fn signing_error_code_method_matches_discriminant() {
    let codes = vec![
        SigningErrorCode::Success,
        SigningErrorCode::InvalidInput,
        SigningErrorCode::CertificateNotFound,
        SigningErrorCode::SigningFailed,
        SigningErrorCode::PrivateKeyNotFound,
        SigningErrorCode::UnknownError,
        SigningErrorCode::PageParameterMissing,
        SigningErrorCode::InvalidSignaturePage,
        SigningErrorCode::TokenNotFound,
        SigningErrorCode::TokenReferenceError,
        SigningErrorCode::InvalidExistingSignature,
        SigningErrorCode::UserCancelled,
    ];
    for code in codes {
        assert_eq!(code.code(), code as i32);
    }
    assert_eq!(CertValidationCode::OCSPUrlNotFound.code(), 10);
    assert_eq!(CertValidationCode::Expired.code(), 2);
}

#[test]
fn test_signing_error_code_equality() {
    assert_eq!(SigningErrorCode::Success, SigningErrorCode::Success);
    assert_ne!(SigningErrorCode::Success, SigningErrorCode::InvalidInput);
}

#[test]
fn test_cert_validation_code_values() {
    assert_eq!(CertValidationCode::Valid as i32, 0);
    assert_eq!(CertValidationCode::UnknownError as i32, 1);
    assert_eq!(CertValidationCode::Expired as i32, 2);
    assert_eq!(CertValidationCode::NotYetValid as i32, 3);
    assert_eq!(CertValidationCode::Revoked as i32, 4);
    assert_eq!(CertValidationCode::CannotSign as i32, 5);
    assert_eq!(CertValidationCode::RevocationCheckFailed as i32, 6);
    assert_eq!(CertValidationCode::UntrustedCA as i32, 7);
    assert_eq!(CertValidationCode::CertInfoUnavailable as i32, 8);
    assert_eq!(CertValidationCode::CACertInfoUnavailable as i32, 9);
    assert_eq!(CertValidationCode::OCSPUrlNotFound as i32, 10);
}

#[test]
fn test_cert_validation_code_equality() {
    assert_eq!(CertValidationCode::Valid, CertValidationCode::Valid);
    assert_ne!(CertValidationCode::Valid, CertValidationCode::Expired);
}

#[test]
fn test_esign_error_pkcs11() {
    let err = ESignError::Pkcs11("Token not found".to_string());
    let msg = err.to_string();
    assert!(msg.contains("PKCS#11"));
    assert!(msg.contains("Token not found"));
}

#[test]
fn test_esign_error_pdf() {
    let err = ESignError::Pdf("Invalid PDF".to_string());
    let msg = err.to_string();
    assert!(msg.contains("PDF"));
    assert!(msg.contains("Invalid PDF"));
}

#[test]
fn test_esign_error_tsa() {
    let err = ESignError::Tsa("Connection failed".to_string());
    let msg = err.to_string();
    assert!(msg.contains("TSA"));
    assert!(msg.contains("Connection failed"));
}

#[test]
fn test_esign_error_signing() {
    let err = ESignError::Signing {
        code: SigningErrorCode::TokenNotFound,
        message: "USB Token not connected".to_string(),
    };
    let msg = err.to_string();
    assert!(msg.contains("Signing error"));
    assert!(msg.contains("TokenNotFound"));
}

#[test]
fn test_esign_error_debug() {
    let err = ESignError::Pkcs11("Test error".to_string());
    let debug = format!("{:?}", err);
    assert!(debug.contains("Pkcs11"));
}

#[test]
fn test_signing_result_success() {
    let result = SigningResult::success("base64data".to_string());
    assert_eq!(result.code, 0);
    assert_eq!(result.data, "base64data");
    assert!(result.error.is_empty());
}

#[test]
fn test_signing_result_error() {
    let result = SigningResult::error(SigningErrorCode::TokenNotFound, "Token not connected");
    assert_eq!(result.code, 8);
    assert!(result.data.is_empty());
    assert_eq!(result.error, "Token not connected");
}

#[test]
fn test_all_signing_error_codes_in_range() {
    let codes = vec![
        SigningErrorCode::Success,
        SigningErrorCode::InvalidInput,
        SigningErrorCode::CertificateNotFound,
        SigningErrorCode::SigningFailed,
        SigningErrorCode::PrivateKeyNotFound,
        SigningErrorCode::UnknownError,
        SigningErrorCode::PageParameterMissing,
        SigningErrorCode::InvalidSignaturePage,
        SigningErrorCode::TokenNotFound,
        SigningErrorCode::TokenReferenceError,
        SigningErrorCode::InvalidExistingSignature,
        SigningErrorCode::UserCancelled,
    ];

    for code in codes {
        let value = code as i32;
        assert!(
            (0..=11).contains(&value),
            "Code {:?} = {} out of range",
            code,
            value
        );
    }
}

#[test]
fn test_all_cert_validation_codes_in_range() {
    let codes = vec![
        CertValidationCode::Valid,
        CertValidationCode::UnknownError,
        CertValidationCode::Expired,
        CertValidationCode::NotYetValid,
        CertValidationCode::Revoked,
        CertValidationCode::CannotSign,
        CertValidationCode::RevocationCheckFailed,
        CertValidationCode::UntrustedCA,
        CertValidationCode::CertInfoUnavailable,
        CertValidationCode::CACertInfoUnavailable,
        CertValidationCode::OCSPUrlNotFound,
    ];

    for code in codes {
        let value = code as i32;
        assert!(
            (0..=10).contains(&value),
            "Code {:?} = {} out of range",
            code,
            value
        );
    }
}
