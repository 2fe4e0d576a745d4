use esign_core::pkcs11::manager::end_entity_and_chain;
use esign_core::pkcs11::manager::keep_present;
use esign_core::pkcs11::manager::load_failure_error;
use esign_core::pkcs11::manager::select_slot;
use esign_core::pkcs11::manager::{collect_tokens, token_info_from};
use base64::Engine;
use esign_core::crypto::sha256;
use esign_core::error::ESignError;
use esign_core::pkcs11::manager::describe_certificate;
use esign_core::pkcs11::helpers::{
    create_arch_mismatch_error, format_dn_utf8, parse_arch_from_error, validate_library_path,
};
use esign_core::pkcs11::library_paths::{self, HostOs};
use esign_core::pkcs11::manager::trim_padding;
use esign_core::pkcs11::chain::build_certificate_chain;
use esign_core::pkcs11::{CertificateInfo, DetectedLibrary, TokenInfo, TokenManager};
use esign_core::time::format_datetime;

fn tlv(tag: u8, content: &[u8]) -> Vec<u8> {
    let mut v = vec![tag];
    let n = content.len();
    if n < 128 {
        v.push(n as u8);
    } else {
        v.extend_from_slice(&[0x82, (n >> 8) as u8, n as u8]);
    }
    v.extend_from_slice(content);
    v
}

fn name(cn: &str) -> Vec<u8> {
    let units: Vec<u8> = cn.encode_utf16().flat_map(|u| u.to_be_bytes()).collect();
    let cn_attr = tlv(0x30, &[tlv(0x06, &[0x55, 0x04, 0x03]), tlv(0x1E, &units)].concat());
    let o_attr = tlv(0x30, &[tlv(0x06, &[0x55, 0x04, 0x0A]), tlv(0x0C, "Công ty".as_bytes())].concat());
    let c_attr = tlv(0x30, &[tlv(0x06, &[0x55, 0x04, 0x06]), tlv(0x13, b"VN")].concat());
    tlv(0x30, &[tlv(0x31, &cn_attr), tlv(0x31, &o_attr), tlv(0x31, &c_attr)].concat())
}

fn certificate(issuer: &[u8], subject: &[u8]) -> Vec<u8> {
    let version = tlv(0xA0, &tlv(0x02, &[0x02]));
    let alg = tlv(0x30, &[tlv(0x06, &[0x2A, 0x86, 0x48, 0x86, 0xF7, 0x0D, 0x01, 0x01, 0x0B]), vec![0x05, 0x00]].concat());
    let validity = tlv(0x30, &[tlv(0x17, b"250101000000Z"), tlv(0x17, b"260101000000Z")].concat());
    let rsa_key = tlv(0x30, &[tlv(0x02, &[0x00, 0xC3, 0x11, 0x22]), tlv(0x02, &[0x01, 0x00, 0x01])].concat());
    let spki = tlv(
        0x30,
        &[
            tlv(0x30, &[tlv(0x06, &[0x2A, 0x86, 0x48, 0x86, 0xF7, 0x0D, 0x01, 0x01, 0x01]), vec![0x05, 0x00]].concat()),
            tlv(0x03, &[vec![0x00], rsa_key].concat()),
        ]
        .concat(),
    );
    let tbs = tlv(0x30, &[version, tlv(0x02, &[0x05]), alg.clone(), issuer.to_vec(), validity, subject.to_vec(), spki].concat());
    tlv(0x30, &[tbs, alg, tlv(0x03, &[0x00, 0x01])].concat())
}

#[test]
fn tests_test_detected_library_creation() {
    let lib = DetectedLibrary {
        ca_name: "VNPT-CA".to_string(),
        path: "/usr/local/lib/libVnptCaPlugin.dylib".to_string(),
    };
    assert_eq!(lib.ca_name, "VNPT-CA");
    assert!(lib.path.contains("Vnpt"));
}

#[test]
fn tests_test_token_info_creation() {
    let info = TokenInfo {
        slot_id: 1,
        label: "Test Token".to_string(),
        manufacturer: "Test Manufacturer".to_string(),
        model: "Test Model".to_string(),
        serial: "123456".to_string(),
        has_token: true,
    };
    assert_eq!(info.slot_id, 1);
    assert_eq!(info.label, "Test Token");
    assert!(info.has_token);
}

#[test]
fn tests_test_token_info_without_token() {
    let info = TokenInfo {
        slot_id: 0,
        label: "Empty Slot".to_string(),
        manufacturer: String::new(),
        model: String::new(),
        serial: String::new(),
        has_token: false,
    };
    assert!(!info.has_token);
    assert!(info.manufacturer.is_empty());
}

#[test]
fn tests_test_certificate_info_creation() {
    let cert = CertificateInfo {
        serial: "ABC123".to_string(),
        subject: "CN=Test User".to_string(),
        issuer: "CN=Test CA".to_string(),
        valid_from: "2025-01-01".to_string(),
        valid_to: "2026-01-01".to_string(),
        thumbprint: "AABBCCDD".to_string(),
        der_base64: "BASE64DATA".to_string(),
    };
    assert_eq!(cert.serial, "ABC123");
    assert!(cert.subject.contains("Test User"));
    assert!(cert.issuer.contains("Test CA"));
}

#[test]
fn tests_test_vnpt_library_path() {
    let path = library_paths::vnpt(HostOs::Linux);
    assert!(!path.is_empty());
    assert!(path.contains("so"));
    assert!(library_paths::vnpt(HostOs::MacOs).contains("dylib"));
    assert!(library_paths::vnpt(HostOs::Windows).contains("dll"));
}

#[test]
fn tests_test_viettel_library_path() {
    let path = library_paths::viettel(HostOs::Linux);
    assert!(!path.is_empty());
}

#[test]
fn tests_test_fpt_library_path() {
    let path = library_paths::fpt(HostOs::Linux);
    assert!(!path.is_empty());
}

#[test]
fn tests_test_all_paths() {
    let paths = library_paths::all_paths(HostOs::Linux);
    assert_eq!(paths.len(), 4);
    for (name, path) in paths {
        assert!(!name.is_empty());
        assert!(!path.is_empty());
    }
}

#[test]
fn tests_test_format_datetime_recent() {
    let timestamp = 1735689600;
    let formatted = format_datetime(timestamp);
    assert!(formatted.contains("2025"));
}

#[test]
fn format_datetime_is_iso_utc() {
    assert_eq!(format_datetime(1735689600), "2025-01-01T00:00:00Z");
    assert_eq!(format_datetime(0), "1970-01-01T00:00:00Z");
    assert_eq!(format_datetime(951782400 + 3723), "2000-02-29T01:02:03Z");
}

#[test]
fn tests_test_token_manager_invalid_path() {
    let result = TokenManager::new("/nonexistent/path/to/library.so", "/nonexistent/path/to/library.so", HostOs::Linux, "x86_64");
    assert!(result.is_err());
}

#[test]
fn tests_test_token_manager_empty_path() {
    let result = TokenManager::new("", "", HostOs::Linux, "x86_64");
    assert!(result.is_err());
}

#[test]
fn library_path_allow_list() {
    assert!(validate_library_path("/usr/lib/vnpt-ca/libcryptoki.so", HostOs::Linux).is_ok());
    assert!(validate_library_path("/opt/x/lib.so", HostOs::Linux).is_ok());
    assert!(matches!(validate_library_path("/home/u/lib.so", HostOs::Linux), Err(ESignError::Pkcs11(_))));
    assert!(matches!(validate_library_path("/usr/lib/x/lib.dll", HostOs::Linux), Err(ESignError::Pkcs11(_))));
    assert!(validate_library_path("/Library/FPT/libpkcs11.dylib", HostOs::MacOs).is_ok());
    assert!(validate_library_path("C:\\FPT-CA\\pkcs11.dll", HostOs::Windows).is_ok());
    assert!(validate_library_path("D:\\FPT-CA\\pkcs11.dll", HostOs::Windows).is_err());
}

#[test]
fn tests_test_parse_arch_x86_to_arm64() {
    let (lib, host) = parse_arch_from_error("dlopen failed: incompatible architecture (have 'x86_64', need 'arm64e' or 'arm64')", "aarch64");
    assert_eq!(lib, "x86_64");
    assert_eq!(host, "arm64e");
}

#[test]
fn tests_test_parse_arch_arm64_to_x86() {
    let (lib, host) = parse_arch_from_error("dlopen failed: incompatible architecture (have 'arm64', need 'x86_64')", "aarch64");
    assert_eq!(lib, "arm64");
    assert_eq!(host, "x86_64");
}

#[test]
fn tests_test_parse_arch_unknown_format() {
    let (lib, host) = parse_arch_from_error("some other error without architecture info", "x86_64");
    assert_eq!(lib, "unknown");
    assert_eq!(host, "x86_64");
}

#[test]
fn tests_test_arch_mismatch_error_guidance_arm64_host() {
    let err = create_arch_mismatch_error("incompatible architecture (have 'x86_64', need 'arm64')", "/usr/local/lib/test.dylib", "aarch64");
    match err {
        ESignError::LibraryArchitectureMismatch { library_arch, host_arch, guidance, .. } => {
            assert_eq!(library_arch, "x86_64");
            assert_eq!(host_arch, "arm64");
            assert!(guidance.contains("Rosetta"));
        },
        _ => panic!("Expected LibraryArchitectureMismatch error"),
    }
}

#[test]
fn arch_mismatch_guidance_variants() {
    match create_arch_mismatch_error("incompatible architecture (have 'arm64', need 'x86_64')", "/usr/local/lib/a.dylib", "x86_64") {
        ESignError::LibraryArchitectureMismatch { guidance, library_path, .. } => {
            assert!(guidance.contains("Apple Silicon"));
            assert_eq!(library_path, "/usr/local/lib/a.dylib");
        },
        _ => panic!("wrong variant"),
    }
    match create_arch_mismatch_error("incompatible architecture", "/usr/local/lib/b.dylib", "riscv64") {
        ESignError::LibraryArchitectureMismatch { library_arch, host_arch, guidance, .. } => {
            assert_eq!(library_arch, "unknown");
            assert_eq!(host_arch, "riscv64");
            assert!(guidance.contains("/usr/local/lib/b.dylib"));
        },
        _ => panic!("wrong variant"),
    }
}

#[test]
fn vietnamese_bmp_subject_decodes() {
    let dn = name("Nguyễn Văn Đức");
    assert_eq!(format_dn_utf8(&dn), "CN=Nguyễn Văn Đức, O=Công ty, C=VN");
    assert_eq!(format_dn_utf8(&[0x30]), "");
}

#[test]
fn dn_unknown_type_and_bad_values() {
    let odd_bmp = tlv(0x30, &[tlv(0x06, &[0x55, 0x04, 0x07]), tlv(0x1E, &[0x00])].concat());
    let other = tlv(0x30, &[tlv(0x06, &[0x55, 0x04, 0x05]), tlv(0x13, b"123")].concat());
    let dn = tlv(0x30, &[tlv(0x31, &odd_bmp), tlv(0x31, &other)].concat());
    assert_eq!(format_dn_utf8(&dn), "L=?, 2.5.4.5=123");
}

#[test]
fn chain_follows_issuers() {
    let root = name("Root");
    let mid = name("Mid");
    let leaf = name("Leaf");
    let root_cert = certificate(&root, &root);
    let mid_cert = certificate(&root, &mid);
    let leaf_cert = certificate(&mid, &leaf);
    let all = vec![leaf_cert.clone(), root_cert.clone(), mid_cert.clone()];
    let chain = build_certificate_chain(&leaf_cert, &all);
    assert_eq!(chain, vec![leaf_cert.clone(), mid_cert.clone(), root_cert.clone()]);
    let alone = build_certificate_chain(&leaf_cert, &vec![leaf_cert.clone()]);
    assert_eq!(alone, vec![leaf_cert.clone()]);
    let garbage = build_certificate_chain(&[0x01, 0x02], &all);
    assert_eq!(garbage, vec![vec![0x01, 0x02]]);
}

#[test]
fn chain_stops_after_ten_issuers() {
    let a = name("A");
    let b = name("B");
    let ab = certificate(&a, &b);
    let ba = certificate(&b, &a);
    let chain = build_certificate_chain(&ab, &vec![ab.clone(), ba.clone()]);
    assert_eq!(chain.len(), 11);
}

#[test]
fn token_strings_lose_padding() {
    assert_eq!(trim_padding("  Token A   "), "Token A");
    assert_eq!(trim_padding("    "), "");
    assert_eq!(trim_padding("SN123"), "SN123");
}

#[test]
fn certificate_description() {
    let issuer = name("Test CA");
    let subject = name("Nguyễn Văn Đức");
    let der = certificate(&issuer, &subject);
    let info = describe_certificate(&der).unwrap();
    assert_eq!(info.subject, "CN=Nguyễn Văn Đức, O=Công ty, C=VN");
    assert_eq!(info.issuer, "CN=Test CA, O=Công ty, C=VN");
    assert_eq!(info.serial, "5");
    assert_eq!(info.valid_from, "2025-01-01T00:00:00Z");
    assert_eq!(info.valid_to, "2026-01-01T00:00:00Z");
    let thumb: String = sha256(&der).iter().map(|b| format!("{:02x}", b)).collect();
    assert_eq!(info.thumbprint, thumb);
    assert_eq!(info.der_base64, base64::engine::general_purpose::STANDARD.encode(&der));
    assert_ne!(info.der_base64.as_bytes(), &der[..]);
    assert!(describe_certificate(&[0x30, 0x03, 0x02, 0x01, 0x00]).is_err());
}

#[test]
fn slot_selection_takes_first_match() {
    assert_eq!(select_slot(&[3, 7, 7], 7), Some(1));
    assert_eq!(select_slot(&[3, 7], 9), None);
    assert_eq!(select_slot(&[], 0), None);
}

#[test]
fn end_entity_is_first_value() {
    let root = name("Root");
    let leaf = name("Leaf");
    let root_cert = certificate(&root, &root);
    let leaf_cert = certificate(&root, &leaf);
    let (ee, chain) = end_entity_and_chain(&vec![leaf_cert.clone(), root_cert.clone()]).unwrap();
    assert_eq!(ee, leaf_cert);
    assert_eq!(chain, vec![leaf_cert, root_cert]);
    match end_entity_and_chain(&vec![]) {
        Err(ESignError::Signing { code, .. }) => assert_eq!(code, esign_core::error::SigningErrorCode::CertificateNotFound),
        _ => panic!("expected CertificateNotFound"),
    }
}

#[test]
fn values_without_certificate_are_dropped() {
    assert_eq!(keep_present(vec![None, Some(vec![1]), None, Some(vec![2, 3])]), vec![vec![1], vec![2, 3]]);
    assert!(keep_present(vec![None]).is_empty());
}

#[test]
fn slot_listing_outcomes() {
    let good = token_info_from(4, "  Token  ", "Maker ", " Model", "SN1");
    assert_eq!(good.label, "Token");
    assert_eq!(good.manufacturer, "Maker");
    assert_eq!(good.model, "Model");
    assert!(good.has_token);
    let bad = || Err(ESignError::Pkcs11("x".to_string()));
    let listed = collect_tokens(vec![bad(), Ok(good.clone()), bad()]).unwrap();
    assert_eq!(listed.len(), 1);
    assert_eq!(listed[0].slot_id, 4);
    assert!(collect_tokens(vec![]).unwrap().is_empty());
    assert!(matches!(collect_tokens(vec![bad(), bad()]), Err(ESignError::Pkcs11(_))));
}

#[test]
fn loader_failure_errors() {
    match load_failure_error("dlopen: incompatible architecture (have 'x86_64', need 'arm64')", "/usr/local/lib/a.dylib", "aarch64") {
        ESignError::LibraryArchitectureMismatch { library_arch, host_arch, .. } => {
            assert_eq!(library_arch, "x86_64");
            assert_eq!(host_arch, "arm64");
        },
        other => panic!("unexpected {:?}", other),
    }
    match load_failure_error("file not found", "/usr/lib/x.so", "x86_64") {
        ESignError::Pkcs11(m) => assert_eq!(m, "Failed to load PKCS#11 library: file not found"),
        other => panic!("unexpected {:?}", other),
    }
}
