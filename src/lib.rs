//! Core of a PAdES-BES PDF signer: a small DER encoder, the detached CMS
//! SignedData builder, the byte-level PDF signature embedding, the RFC 3161
//! timestamp request and response codec, and the PKCS#11 token driver.
pub mod der;
pub mod error;
pub mod time;
pub mod crypto;
pub mod x509;
pub mod cms;
pub mod bytes;
pub mod signature;
pub mod tsa;
pub mod pkcs11;
pub mod pdf_doc;
pub mod pdf;
pub mod font;
pub mod paths;
