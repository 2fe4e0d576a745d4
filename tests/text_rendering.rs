use esign_core::font::{utf8_to_pdf_hex, utf8_to_pdf_hex_bold, utf8_to_pdf_hex_with_font};
use esign_core::paths::{validate_pdf_input_path, validate_pdf_output_path};
use esign_core::pkcs11::library_paths::HostOs;
use esign_core::time::{format_signing_time, get_current_signing_time, CivilTime};

#[test]
fn test_utf8_to_pdf_hex_ascii() {
    let hex = utf8_to_pdf_hex("Hello");
    assert!(!hex.is_empty());
    println!("Hello glyph hex: {}", hex);
}

#[test]
fn test_utf8_to_pdf_hex_vietnamese() {
    let hex = utf8_to_pdf_hex("Được");
    assert!(!hex.is_empty());
    println!("Được glyph hex: {}", hex);
}

#[test]
fn test_utf8_to_pdf_hex_bold() {
    let hex = utf8_to_pdf_hex_bold("Hello");
    assert!(!hex.is_empty());
    println!("Hello bold glyph hex: {}", hex);
}

#[test]
fn pdf_hex_falls_back_to_utf16_without_a_font() {
    assert_eq!(utf8_to_pdf_hex_with_font("Đa", &[]), "01100061");
    assert_eq!(utf8_to_pdf_hex_with_font("😀", &[1, 2, 3]), "D83DDE00");
    assert_eq!(utf8_to_pdf_hex(""), "");
}

#[test]
fn test_format_signing_time() {
    let t = CivilTime { year: 2025, month: 12, day: 26, hour: 9, minute: 5, second: 7 };
    let formatted = format_signing_time(&t);
    assert!(formatted.contains("/"));
    assert!(formatted.contains(":"));
    assert_eq!(formatted, "09:05:07 26/12/2025");
}

#[test]
fn test_get_current_signing_time() {
    let time = get_current_signing_time();
    assert!(!time.is_empty());
    assert!(time.contains("/") || time.contains("-"));
}

#[test]
fn pdf_path_checks() {
    assert!(validate_pdf_input_path("/home/u/doc.pdf", HostOs::Linux).is_ok());
    assert!(validate_pdf_input_path("/home/u/DOC.PDF", HostOs::Linux).is_ok());
    assert!(validate_pdf_input_path("/home/u/doc.txt", HostOs::Linux).is_err());
    assert!(validate_pdf_input_path("/home/u/.pdf", HostOs::Linux).is_err());
    assert!(validate_pdf_input_path("/etc/doc.pdf", HostOs::Linux).is_err());
    assert!(validate_pdf_input_path("/etcetera/doc.pdf", HostOs::Linux).is_ok());
    assert!(validate_pdf_output_path("/usr/share/out.pdf", HostOs::Linux).is_err());
    assert!(validate_pdf_output_path("out.pdf", HostOs::Linux).is_ok());
    assert!(validate_pdf_output_path("C:\\Windows\\out.pdf", HostOs::Windows).is_err());
    assert!(validate_pdf_output_path("c:\\PROGRAM FILES\\x\\out.pdf", HostOs::Windows).is_err());
    assert!(validate_pdf_output_path("D:\\docs\\out.pdf", HostOs::Windows).is_ok());
}
