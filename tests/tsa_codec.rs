use esign_core::error::ESignError;
use esign_core::tsa::{tsa_step, TsaStep};
use esign_core::der::parse_asn1_length;
use esign_core::tsa::servers;
use esign_core::tsa::{build_timestamp_request, parse_timestamp_response, TsaConfig};

#[test]
fn test_vnpt_tsa_urls() {
    assert!(!servers::VNPT_HTTPS.is_empty());
    assert!(servers::VNPT_HTTPS.starts_with("https"));
    assert!(!servers::VNPT_HTTP.is_empty());
    assert!(servers::VNPT_HTTP.starts_with("http://"));
}

#[test]
fn test_viettel_tsa_urls() {
    assert!(!servers::VIETTEL_HTTPS.is_empty());
    assert!(servers::VIETTEL_HTTPS.starts_with("https"));
    assert!(!servers::VIETTEL_HTTP.is_empty());
    assert!(servers::VIETTEL_HTTP.starts_with("http://"));
}

#[test]
fn test_fpt_tsa_urls() {
    assert!(!servers::FPT_HTTPS.is_empty());
    assert!(servers::FPT_HTTPS.starts_with("https"));
    assert!(!servers::FPT_HTTP.is_empty());
    assert!(servers::FPT_HTTP.starts_with("http://"));
}

#[test]
fn test_is_insecure() {
    assert!(servers::is_insecure("http://example.com"));
    assert!(!servers::is_insecure("https://example.com"));
}

#[test]
fn is_insecure_short_and_upper_case() {
    assert!(!servers::is_insecure("http:/"));
    assert!(!servers::is_insecure(""));
    assert!(!servers::is_insecure("HTTP://example.com"));
}

#[test]
fn test_tsa_config_default() {
    let config = TsaConfig::default();
    assert_eq!(config.primary_url, servers::VNPT_HTTPS);
    assert!(!config.fallback_urls.is_empty());
    assert_eq!(config.timeout_secs, 30);
    assert!(config.fallback_urls[0].starts_with("https"));
}

#[test]
fn tsa_config_default_puts_http_last() {
    let urls = TsaConfig::default().candidate_urls();
    assert_eq!(urls.len(), 6);
    let first_http = urls.iter().position(|u| servers::is_insecure(u)).unwrap();
    assert_eq!(first_http, 3);
    assert!(urls[3..].iter().all(|u| servers::is_insecure(u)));
}

#[test]
fn test_tsa_config_custom() {
    let config = TsaConfig {
        primary_url: "http://custom.tsa.vn".to_string(),
        fallback_urls: vec!["http://fallback1.vn".to_string()],
        timeout_secs: 60,
    };
    assert_eq!(config.primary_url, "http://custom.tsa.vn");
    assert_eq!(config.fallback_urls.len(), 1);
    assert_eq!(config.timeout_secs, 60);
}

#[test]
fn test_tsa_config_empty_fallbacks() {
    let config = TsaConfig {
        primary_url: servers::VNPT_HTTPS.to_string(),
        fallback_urls: vec![],
        timeout_secs: 30,
    };
    assert!(config.fallback_urls.is_empty());
    assert_eq!(config.candidate_urls(), vec![servers::VNPT_HTTPS.to_string()]);
}

#[test]
fn test_parse_asn1_length_short() {
    let data = [0x0A];
    let (consumed, len) = parse_asn1_length(&data).unwrap();
    assert_eq!(consumed, 1);
    assert_eq!(len, 10);
}

#[test]
fn test_parse_asn1_length_zero() {
    let data = [0x00];
    let (consumed, len) = parse_asn1_length(&data).unwrap();
    assert_eq!(consumed, 1);
    assert_eq!(len, 0);
}

#[test]
fn test_parse_asn1_length_max_short() {
    let data = [0x7F];
    let (consumed, len) = parse_asn1_length(&data).unwrap();
    assert_eq!(consumed, 1);
    assert_eq!(len, 127);
}

#[test]
fn test_parse_asn1_length_long_one_byte() {
    let data = [0x81, 0x80];
    let (consumed, len) = parse_asn1_length(&data).unwrap();
    assert_eq!(consumed, 2);
    assert_eq!(len, 128);
}

#[test]
fn test_parse_asn1_length_long() {
    let data = [0x82, 0x01, 0x00];
    let (consumed, len) = parse_asn1_length(&data).unwrap();
    assert_eq!(consumed, 3);
    assert_eq!(len, 256);
}

#[test]
fn test_parse_asn1_length_long_large() {
    let data = [0x82, 0x10, 0x00];
    let (consumed, len) = parse_asn1_length(&data).unwrap();
    assert_eq!(consumed, 3);
    assert_eq!(len, 4096);
}

#[test]
fn test_parse_asn1_length_empty() {
    let data: [u8; 0] = [];
    let result = parse_asn1_length(&data);
    assert!(result.is_err());
}

#[test]
fn test_parse_asn1_length_invalid_long_form() {
    let data = [0x80];
    let result = parse_asn1_length(&data);
    assert!(result.is_err());
}

#[test]
fn parse_asn1_length_rejects_five_octets_and_truncation() {
    assert!(parse_asn1_length(&[0x85, 1, 2, 3, 4, 5]).is_err());
    assert!(parse_asn1_length(&[0x82, 0x01]).is_err());
    assert_eq!(parse_asn1_length(&[0x84, 0x01, 0x00, 0x00, 0x00]).unwrap(), (5, 0x0100_0000));
}

#[test]
fn test_parse_asn1_length_three_bytes() {
    let data = [0x83, 0x01, 0x00, 0x00];
    let (consumed, len) = parse_asn1_length(&data).unwrap();
    assert_eq!(consumed, 4);
    assert_eq!(len, 65536);
}

#[test]
fn test_build_timestamp_request() {
    let hash = [0u8; 32];
    let request = build_timestamp_request(&hash, 0x0102_0304_0506_0708);
    assert_eq!(request[0], 0x30);
}

#[test]
fn test_build_timestamp_request_different_hash() {
    let hash1 = [0u8; 32];
    let hash2 = [0xFFu8; 32];
    let request1 = build_timestamp_request(&hash1, 42);
    let request2 = build_timestamp_request(&hash2, 42);
    assert_eq!(request1[0], request2[0]);
    assert_ne!(request1, request2);
}

#[test]
fn test_build_timestamp_request_structure() {
    let hash = [0xAB; 32];
    let request = build_timestamp_request(&hash, 7);
    assert_eq!(request[0], 0x30);
    assert!(request.len() > 32 + 10);
}

#[test]
fn timestamp_request_exact_encoding() {
    let hash = [0x11u8; 32];
    let request = build_timestamp_request(&hash, 0x0000_0000_0001_0203);
    let mut expected = vec![0x30, 0x3E, 0x02, 0x01, 0x01, 0x30, 0x31, 0x30, 0x0D, 0x06, 0x09];
    expected.extend_from_slice(&[0x60, 0x86, 0x48, 0x01, 0x65, 0x03, 0x04, 0x02, 0x01, 0x05, 0x00]);
    expected.extend_from_slice(&[0x04, 0x20]);
    expected.extend_from_slice(&hash);
    expected.extend_from_slice(&[0x02, 0x03, 0x01, 0x02, 0x03]);
    expected.extend_from_slice(&[0x01, 0x01, 0xFF]);
    assert_eq!(request, expected);
    let zero_nonce = build_timestamp_request(&hash, 0);
    assert_eq!(&zero_nonce[zero_nonce.len() - 6..], &[0x02, 0x01, 0x00, 0x01, 0x01, 0xFF]);
}

fn response(status: u8, token: &[u8]) -> Vec<u8> {
    let status_info = vec![0x30, 0x03, 0x02, 0x01, status];
    let mut content = status_info;
    content.extend_from_slice(token);
    let mut r = vec![0x30, content.len() as u8];
    r.extend(content);
    r
}

#[test]
fn timestamp_response_granted_yields_token() {
    let token = [0x30, 0x03, 0x02, 0x01, 0x05];
    assert_eq!(parse_timestamp_response(&response(0, &token)).unwrap(), token.to_vec());
    assert_eq!(parse_timestamp_response(&response(1, &token)).unwrap(), token.to_vec());
    let mut trailing = token.to_vec();
    trailing.extend_from_slice(&[0xAA, 0xBB]);
    assert_eq!(parse_timestamp_response(&response(0, &trailing)).unwrap(), token.to_vec());
}

#[test]
fn timestamp_response_rejections() {
    let token = [0x30, 0x03, 0x02, 0x01, 0x05];
    assert!(parse_timestamp_response(&response(2, &token)).is_err());
    assert!(parse_timestamp_response(&response(0, &[])).is_err());
    assert!(parse_timestamp_response(&response(0, &[0x04, 0x01, 0x00])).is_err());
    assert!(parse_timestamp_response(&[0x31, 0x03, 0x02, 0x01, 0x00]).is_err());
    assert!(parse_timestamp_response(&[0x30, 0x00]).is_err());
}

#[test]
fn tsa_step_decisions() {
    assert!(matches!(tsa_step(Ok(vec![1]), false), TsaStep::Done(t) if t == vec![1]));
    assert!(matches!(tsa_step(Err(ESignError::Tsa("x".into())), false), TsaStep::TryNext));
    assert!(matches!(tsa_step(Err(ESignError::Tsa("x".into())), true), TsaStep::GiveUp(ESignError::Tsa(_))));
}
