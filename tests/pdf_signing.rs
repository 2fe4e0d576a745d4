use esign_core::pdf::shown_signer_name;
use esign_core::pdf::validate_sign_request;
use esign_core::signature::SIGNATURE_TOO_LARGE;
use esign_core::bytes::find_bytes;
use esign_core::cms::{build_cms_structure, extract_issuer_and_serial};
use esign_core::crypto::sha256;
use esign_core::error::{ESignError, SigningErrorCode};
use esign_core::pdf::{PdfSigner, PdfSigningEngine, SignResult};
use esign_core::signature::{
    calculate_byte_range, compute_document_digest, embed_signature, select_page_index,
    SIGNATURE_CONTAINER_SIZE,
};
use lopdf::{Dictionary, Document, Object};

fn tlv(tag: u8, content: &[u8]) -> Vec<u8> {
    let mut v = vec![tag];
    let n = content.len();
    if n < 128 {
        v.push(n as u8);
    } else if n < 256 {
        v.extend_from_slice(&[0x81, n as u8]);
    } else if n < 65536 {
        v.extend_from_slice(&[0x82, (n >> 8) as u8, n as u8]);
    } else {
        v.extend_from_slice(&[0x83, (n >> 16) as u8, (n >> 8) as u8, n as u8]);
    }
    v.extend_from_slice(content);
    v
}

fn name(cn: &str, org: &str) -> Vec<u8> {
    let units: Vec<u8> = cn.encode_utf16().flat_map(|u| u.to_be_bytes()).collect();
    let cn_attr = tlv(0x30, &[tlv(0x06, &[0x55, 0x04, 0x03]), tlv(0x1E, &units)].concat());
    let o_attr = tlv(0x30, &[tlv(0x06, &[0x55, 0x04, 0x0A]), tlv(0x0C, org.as_bytes())].concat());
    let c_attr = tlv(0x30, &[tlv(0x06, &[0x55, 0x04, 0x06]), tlv(0x13, b"VN")].concat());
    tlv(0x30, &[tlv(0x31, &cn_attr), tlv(0x31, &o_attr), tlv(0x31, &c_attr)].concat())
}

fn certificate(issuer: &[u8], subject: &[u8], serial: &[u8]) -> Vec<u8> {
    let version = tlv(0xA0, &tlv(0x02, &[0x02]));
    let alg = tlv(
        0x30,
        &[tlv(0x06, &[0x2A, 0x86, 0x48, 0x86, 0xF7, 0x0D, 0x01, 0x01, 0x0B]), vec![0x05, 0x00]].concat(),
    );
    let validity = tlv(0x30, &[tlv(0x17, b"250101000000Z"), tlv(0x17, b"260101000000Z")].concat());
    let mut modulus = vec![0x00, 0xC3];
    modulus.extend_from_slice(&[0x5Du8; 63]);
    let rsa_key = tlv(0x30, &[tlv(0x02, &modulus), tlv(0x02, &[0x01, 0x00, 0x01])].concat());
    let spki = tlv(
        0x30,
        &[
            tlv(0x30, &[tlv(0x06, &[0x2A, 0x86, 0x48, 0x86, 0xF7, 0x0D, 0x01, 0x01, 0x01]), vec![0x05, 0x00]].concat()),
            tlv(0x03, &[vec![0x00], rsa_key].concat()),
        ]
        .concat(),
    );
    let tbs = tlv(
        0x30,
        &[version, tlv(0x02, serial), alg.clone(), issuer.to_vec(), validity, subject.to_vec(), spki].concat(),
    );
    tlv(0x30, &[tbs, alg, tlv(0x03, &[0x00, 0x01, 0x02, 0x03])].concat())
}

fn test_certificate() -> (Vec<u8>, Vec<u8>, Vec<u8>) {
    let issuer = name("Test CA", "Konek");
    let subject = name("Nguyễn Văn A", "Công ty Thử nghiệm");
    let serial = vec![0x01, 0x23, 0x45, 0x67];
    (certificate(&issuer, &subject, &serial), issuer, serial)
}

fn make_pdf(pages: usize) -> Vec<u8> {
    let mut doc = Document::with_version("1.5");
    let pages_id = doc.new_object_id();
    let mut kids = vec![];
    for _ in 0..pages {
        let mut page = Dictionary::new();
        page.set("Type", Object::Name(b"Page".to_vec()));
        page.set("Parent", Object::Reference(pages_id));
        page.set(
            "MediaBox",
            Object::Array(vec![Object::Integer(0), Object::Integer(0), Object::Integer(595), Object::Integer(842)]),
        );
        let id = doc.add_object(Object::Dictionary(page));
        kids.push(Object::Reference(id));
    }
    let mut pages_dict = Dictionary::new();
    pages_dict.set("Type", Object::Name(b"Pages".to_vec()));
    pages_dict.set("Count", Object::Integer(pages as i64));
    pages_dict.set("Kids", Object::Array(kids));
    doc.objects.insert(pages_id, Object::Dictionary(pages_dict));
    let mut catalog = Dictionary::new();
    catalog.set("Type", Object::Name(b"Catalog".to_vec()));
    catalog.set("Pages", Object::Reference(pages_id));
    let catalog_id = doc.add_object(Object::Dictionary(catalog));
    doc.trailer.set("Root", Object::Reference(catalog_id));
    let mut out = Vec::new();
    doc.save_to(&mut out).unwrap();
    out
}

fn fake_sign(data: &[u8]) -> Result<Vec<u8>, ESignError> {
    let mut sig = sha256(data);
    sig.resize(256, 0x7E);
    Ok(sig)
}

fn no_timestamp(_: &[u8]) -> Option<Vec<u8>> {
    None
}

fn invisible(page: u32) -> PdfSigner {
    PdfSigner {
        page,
        visible: false,
        description: Some("Test".to_string()),
        signer: Some("A".to_string()),
        ..PdfSigner::default()
    }
}

fn window_of(out: &[u8]) -> [usize; 4] {
    calculate_byte_range(out).unwrap()
}

/// The messageDigest attribute value inside a CMS blob.
fn message_digest(cms: &[u8]) -> Vec<u8> {
    let oid = [0x06, 0x09, 0x2A, 0x86, 0x48, 0x86, 0xF7, 0x0D, 0x01, 0x09, 0x04];
    let at = find_bytes(cms, &oid).unwrap() + oid.len();
    assert_eq!(&cms[at..at + 4], &[0x31, 0x22, 0x04, 0x20]);
    cms[at + 4..at + 36].to_vec()
}

fn cms_of(out: &[u8], br: &[usize; 4]) -> Vec<u8> {
    let hex = &out[br[1] + 1..br[2] - 1];
    let bytes: Vec<u8> = hex
        .chunks(2)
        .map(|p| u8::from_str_radix(std::str::from_utf8(p).unwrap(), 16).unwrap())
        .collect();
    let total = {
        let (h, n) = esign_core::der::parse_asn1_length(&bytes[1..]).unwrap();
        1 + h + n
    };
    bytes[..total].to_vec()
}

#[test]
fn test_sign_result_success() {
    let result = SignResult {
        success: true,
        output_path: "/path/to/output.pdf".to_string(),
        message: "Signed successfully".to_string(),
        signing_time: "2025-12-26 10:00:00".to_string(),
        tsa_warning: None,
    };
    assert!(result.success);
    assert!(result.output_path.ends_with(".pdf"));
}

#[test]
fn test_sign_result_failure() {
    let result = SignResult {
        success: false,
        output_path: String::new(),
        message: "Failed to sign".to_string(),
        signing_time: String::new(),
        tsa_warning: None,
    };
    assert!(!result.success);
    assert!(result.output_path.is_empty());
}

#[test]
fn test_sign_result_with_tsa_warning() {
    let result = SignResult {
        success: true,
        output_path: "/path/to/output.pdf".to_string(),
        message: "Signed successfully".to_string(),
        signing_time: "2025-12-26 10:00:00".to_string(),
        tsa_warning: Some("Timestamp obtained via insecure HTTP".to_string()),
    };
    assert!(result.success);
    assert!(result.tsa_warning.is_some());
}

#[test]
fn test_pdf_signer_default() {
    let signer = PdfSigner::default();
    assert_eq!(signer.page, 1);
    assert_eq!(signer.llx, 50);
    assert_eq!(signer.lly, 50);
    assert_eq!(signer.urx, 200);
    assert_eq!(signer.ury, 100);
    assert!(signer.visible);
    assert!(signer.description.is_none());
    assert!(signer.signer.is_none());
}

#[test]
fn test_pdf_signer_with_values() {
    let signer = PdfSigner {
        page: 2,
        llx: 100,
        lly: 100,
        urx: 300,
        ury: 150,
        sig_text_size: Some(12),
        signer: Some("Test Signer".to_string()),
        description: Some("Test reason".to_string()),
        only_description: Some(false),
        signing_time: Some("2025-12-26".to_string()),
        certificate_serial: Some("ABC123".to_string()),
        sig_color_rgb: None,
        image_base64: None,
        set_image_background: Some(false),
        visible: false,
    };
    assert_eq!(signer.page, 2);
    assert!(!signer.visible);
    assert_eq!(signer.description.unwrap(), "Test reason");
}

#[test]
fn test_signature_container_size() {
    assert_eq!(SIGNATURE_CONTAINER_SIZE, 65536);
}

#[test]
fn sha256_known_digest() {
    let d = sha256(b"abc");
    assert_eq!(
        d,
        vec![
            0xba, 0x78, 0x16, 0xbf, 0x8f, 0x01, 0xcf, 0xea, 0x41, 0x41, 0x40, 0xde, 0x5d, 0xae, 0x22, 0x23,
            0xb0, 0x03, 0x61, 0xa3, 0x96, 0x17, 0x7a, 0x9c, 0xb4, 0x10, 0xff, 0x61, 0xf2, 0x00, 0x15, 0xad
        ]
    );
}

#[test]
fn page_indexing_bounds() {
    assert_eq!(select_page_index(1, 2).unwrap(), 0);
    assert_eq!(select_page_index(2, 2).unwrap(), 1);
    for page in [0u32, 3] {
        match select_page_index(page, 2) {
            Err(ESignError::Signing { code, .. }) => assert_eq!(code, SigningErrorCode::InvalidSignaturePage),
            other => panic!("unexpected {:?}", other),
        }
    }
}

fn placeholder_pdf(prefix: &[u8], suffix: &[u8]) -> (Vec<u8>, [usize; 4]) {
    let mut pdf = prefix.to_vec();
    pdf.extend_from_slice(b"/Contents<");
    let h = pdf.len() - 1;
    pdf.extend(std::iter::repeat(b'0').take(2 * SIGNATURE_CONTAINER_SIZE));
    pdf.push(b'>');
    pdf.extend_from_slice(suffix);
    let br = [0, h, h + 2 * SIGNATURE_CONTAINER_SIZE + 2, pdf.len() - (h + 2 * SIGNATURE_CONTAINER_SIZE + 2)];
    (pdf, br)
}

#[test]
fn byte_range_of_placeholder() {
    let (pdf, br) = placeholder_pdf(b"%PDF-1.5\n1 0 obj<</ByteRange[0 1 2 3]", b">>\nendobj\n%%EOF\n");
    assert_eq!(calculate_byte_range(&pdf).unwrap(), br);
    assert_eq!(br[2] - br[1], 131074);
    assert_eq!(br[1] + br[3] + (br[2] - br[1]), pdf.len());
}

#[test]
fn byte_range_ignores_earlier_contents() {
    let (pdf, br) = placeholder_pdf(b"%PDF-1.5\n9 0 obj<</Contents <DEADBEEF>>>endobj\n", b">>\n%%EOF\n");
    assert_eq!(calculate_byte_range(&pdf).unwrap(), br);
    let mut spaced = b"%PDF-1.5\n/Contents<AB>\n".to_vec();
    spaced.extend_from_slice(b"/Contents <CD> tail");
    let r = calculate_byte_range(&spaced).unwrap();
    assert_eq!(&spaced[r[1]..r[2]], b"<CD>");
}

#[test]
fn byte_range_rejects_far_container_and_missing_one() {
    let (mut pdf, _) = placeholder_pdf(b"%PDF-1.5\n", b"");
    pdf.extend(std::iter::repeat(b' ').take(1_000_100));
    assert!(matches!(calculate_byte_range(&pdf), Err(ESignError::Pdf(_))));
    assert!(matches!(calculate_byte_range(b"%PDF-1.5 no container"), Err(ESignError::Pdf(_))));
    assert!(matches!(calculate_byte_range(b"/Contents <00"), Err(ESignError::Pdf(_))));
}

#[test]
fn embed_accepts_full_container_and_rejects_one_more_byte() {
    let (pdf, br) = placeholder_pdf(b"%PDF-1.5\n", b">>\n%%EOF\n");
    let full = vec![0xABu8; SIGNATURE_CONTAINER_SIZE];
    let out = embed_signature(pdf.clone(), &full, &br).unwrap();
    assert_eq!(out.len(), pdf.len());
    assert!(out[br[1] + 1..br[2] - 1].iter().all(|&c| c == b'A' || c == b'B'));
    let over = vec![0xABu8; SIGNATURE_CONTAINER_SIZE + 1];
    match embed_signature(pdf, &over, &br) {
        Err(ESignError::Signing { code, message }) => {
            assert_eq!(code, SigningErrorCode::SigningFailed);
            assert!(message.contains("too large"));
        },
        other => panic!("unexpected {:?}", other.map(|v| v.len())),
    }
}

#[test]
fn embed_pads_with_zero_digits_and_keeps_spans() {
    let (pdf, br) = placeholder_pdf(b"%PDF-1.5\n", b">>\n%%EOF\n");
    let out = embed_signature(pdf.clone(), &[0x01, 0xFE], &br).unwrap();
    assert_eq!(&out[br[1] + 1..br[1] + 5], b"01FE");
    assert!(out[br[1] + 5..br[2] - 1].iter().all(|&c| c == b'0'));
    assert_eq!(out[..br[1] + 1], pdf[..br[1] + 1]);
    assert_eq!(out[br[2] - 1..], pdf[br[2] - 1..]);
    let bad = [0, br[1], br[2] - 1, br[3] + 1];
    assert!(matches!(embed_signature(pdf, &[1], &bad), Err(ESignError::Pdf(_))));
}

#[test]
fn document_digest_covers_both_spans() {
    let data = b"0123456789".to_vec();
    let d = compute_document_digest(&data, &[0, 3, 5, 5]);
    assert_eq!(d, sha256(b"01256789"));
    let e = compute_document_digest(&data, &[0, 3, 5, 9]);
    assert_eq!(e, sha256(b"012"));
}

#[test]
fn issuer_and_serial_from_certificate() {
    let (cert, issuer, serial) = test_certificate();
    let sid = extract_issuer_and_serial(&cert).unwrap();
    let expected = tlv(0x30, &[issuer, tlv(0x02, &serial)].concat());
    assert_eq!(sid, expected);
    assert!(matches!(extract_issuer_and_serial(&[0x30, 0x00]), Err(ESignError::Pdf(_))));
}

#[test]
fn cms_structure_with_and_without_timestamp() {
    let (cert, _, _) = test_certificate();
    let attrs = vec![0x31, 0x03, 0x02, 0x01, 0x05];
    let sig = vec![0x55u8; 256];
    let plain = build_cms_structure(&cert, &attrs, &sig, None).unwrap();
    let token = tlv(0x30, &[0x02, 0x01, 0x07]);
    let stamped = build_cms_structure(&cert, &attrs, &sig, Some(&token)).unwrap();
    let ts_oid = [0x2A, 0x86, 0x48, 0x86, 0xF7, 0x0D, 0x01, 0x09, 0x10, 0x02, 0x0E];
    assert!(find_bytes(&plain, &ts_oid).is_none());
    assert!(find_bytes(&stamped, &ts_oid).is_some());
    assert_eq!(plain[0], 0x30);
    let (h, n) = esign_core::der::parse_asn1_length(&plain[1..]).unwrap();
    assert_eq!(1 + h + n, plain.len());
    assert!(find_bytes(&plain, &[0xA0, 0x03, 0x02, 0x01, 0x05]).is_some());
    assert!(build_cms_structure(&cert, &[0x30, 0x00], &sig, None).is_err());
    assert!(build_cms_structure(&[0x01], &attrs, &sig, None).is_err());
}

#[test]
fn invisible_signature_on_two_page_pdf() {
    let input = make_pdf(2);
    let (cert, issuer, serial) = test_certificate();
    let engine = PdfSigningEngine::new();
    let out = engine.sign_pdf_bytes(&input, &invisible(1), &fake_sign, &no_timestamp, &cert).unwrap();
    assert!(out.len() >= input.len() + 2 * SIGNATURE_CONTAINER_SIZE);
    assert!(Document::load_mem(&out).is_ok());
    let br = window_of(&out);
    assert_eq!(br[0], 0);
    assert_eq!(br[2] - br[1], 131074);
    assert_eq!(br[1] + br[3] + (br[2] - br[1]), out.len());
    assert!(out[br[1] + 1..br[2] - 1].iter().all(|c| c.is_ascii_digit() || (b'A'..=b'F').contains(c)));
    let expected_range = format!("[{} {} {} {}", br[0], br[1], br[2], br[3]);
    assert!(find_bytes(&out, expected_range.as_bytes()).is_some());
    let cms = cms_of(&out, &br);
    let digest = compute_document_digest(&out, &br);
    assert_eq!(message_digest(&cms), digest);
    let sid = tlv(0x30, &[issuer, tlv(0x02, &serial)].concat());
    assert!(find_bytes(&cms, &sid).is_some());
    let ts_oid = [0x2A, 0x86, 0x48, 0x86, 0xF7, 0x0D, 0x01, 0x09, 0x10, 0x02, 0x0E];
    assert!(find_bytes(&cms, &ts_oid).is_none());
}

#[test]
fn visible_signature_appearance() {
    let input = make_pdf(1);
    let (cert, _, _) = test_certificate();
    let params = PdfSigner {
        page: 1,
        llx: 50,
        lly: 50,
        urx: 250,
        ury: 100,
        signer: Some("Signer Name".to_string()),
        signing_time: Some("10:00:00 26/12/2025".to_string()),
        ..PdfSigner::default()
    };
    let out = PdfSigningEngine::new().sign_pdf_bytes(&input, &params, &fake_sign, &no_timestamp, &cert).unwrap();
    let doc = Document::load_mem(&out).unwrap();
    let page_id = doc.page_iter().next().unwrap();
    let page = doc.get_object(page_id).unwrap().as_dict().unwrap();
    let annots = page.get(b"Annots").unwrap().as_array().unwrap();
    assert_eq!(annots.len(), 1);
    let widget = doc.get_object(annots[0].as_reference().unwrap()).unwrap().as_dict().unwrap();
    let ap = widget.get(b"AP").unwrap().as_dict().unwrap();
    let stream_id = ap.get(b"N").unwrap().as_reference().unwrap();
    let stream = doc.get_object(stream_id).unwrap().as_stream().unwrap();
    let text = String::from_utf8_lossy(&stream.content).to_string();
    assert!(text.contains("(Signer Name) Tj"));
    assert!(text.contains("(10:00:00 26/12/2025) Tj"));
    assert!(text.contains("0 0 200 50 re f"));
}

#[test]
fn timestamp_token_is_embedded_when_given() {
    let input = make_pdf(1);
    let (cert, _, _) = test_certificate();
    let token = tlv(0x30, &[0x06, 0x03, 0x2A, 0x03, 0x04]);
    let stamp = |_: &[u8]| Some(token.clone());
    let out = PdfSigningEngine::new().sign_pdf_bytes(&input, &invisible(1), &fake_sign, &stamp, &cert).unwrap();
    let cms = cms_of(&out, &window_of(&out));
    let ts_oid = [0x2A, 0x86, 0x48, 0x86, 0xF7, 0x0D, 0x01, 0x09, 0x10, 0x02, 0x0E];
    assert!(find_bytes(&cms, &ts_oid).is_some());
    assert!(find_bytes(&cms, &token).is_some());
}

#[test]
fn oversized_cms_is_rejected() {
    let input = make_pdf(1);
    let (cert, _, _) = test_certificate();
    let huge = tlv(0x30, &vec![0x42u8; 70_000]);
    let stamp = |_: &[u8]| Some(huge.clone());
    match PdfSigningEngine::new().sign_pdf_bytes(&input, &invisible(1), &fake_sign, &stamp, &cert) {
        Err(ESignError::Signing { code, message }) => {
            assert_eq!(code, SigningErrorCode::SigningFailed);
            assert!(message.contains("container"));
        },
        other => panic!("unexpected {:?}", other.map(|v| v.len())),
    }
}

#[test]
fn signing_page_out_of_range_fails() {
    let input = make_pdf(2);
    let (cert, _, _) = test_certificate();
    for page in [0u32, 3] {
        match PdfSigningEngine::new().sign_pdf_bytes(&input, &invisible(page), &fake_sign, &no_timestamp, &cert) {
            Err(ESignError::Signing { code, .. }) => assert_eq!(code, SigningErrorCode::InvalidSignaturePage),
            other => panic!("unexpected {:?}", other.map(|v| v.len())),
        }
    }
}

#[test]
fn signing_twice_keeps_layout() {
    let input = make_pdf(2);
    let (cert, _, _) = test_certificate();
    let engine = PdfSigningEngine::new();
    let a = engine.sign_pdf_bytes(&input, &invisible(2), &fake_sign, &no_timestamp, &cert).unwrap();
    let b = engine.sign_pdf_bytes(&input, &invisible(2), &fake_sign, &no_timestamp, &cert).unwrap();
    assert_eq!(a.len(), b.len());
    assert_eq!(window_of(&a), window_of(&b));
}

#[test]
fn signing_errors_propagate() {
    let (cert, _, _) = test_certificate();
    let refuse = |_: &[u8]| -> Result<Vec<u8>, ESignError> {
        Err(ESignError::Signing { code: SigningErrorCode::SigningFailed, message: "no".to_string() })
    };
    let input = make_pdf(1);
    assert!(matches!(
        PdfSigningEngine::new().sign_pdf_bytes(&input, &invisible(1), &refuse, &no_timestamp, &cert),
        Err(ESignError::Signing { code: SigningErrorCode::SigningFailed, .. })
    ));
    assert!(matches!(
        PdfSigningEngine::new().sign_pdf_bytes(b"not a pdf", &invisible(1), &fake_sign, &no_timestamp, &cert),
        Err(ESignError::Pdf(_))
    ));
    assert!(PdfSigningEngine::new().sign_pdf_bytes(&input, &invisible(1), &fake_sign, &no_timestamp, &[0x01]).is_err());
}

#[test]
fn sign_request_checks() {
    assert!(validate_sign_request("a.pdf", "b.pdf", Some(1), &None, &None).is_ok());
    assert!(validate_sign_request("a.pdf", "b.pdf", None, &Some("r".repeat(500)), &Some("s".repeat(200))).is_ok());
    let bad = [
        validate_sign_request("", "b.pdf", None, &None, &None),
        validate_sign_request("a.pdf", "", None, &None, &None),
        validate_sign_request("a.pdf", "b.pdf", Some(0), &None, &None),
        validate_sign_request("a.pdf", "b.pdf", Some(1001), &None, &None),
        validate_sign_request("a.pdf", "b.pdf", None, &Some("r".repeat(501)), &None),
        validate_sign_request("a.pdf", "b.pdf", None, &None, &Some("đ".repeat(101))),
    ];
    for r in bad {
        match r {
            Err(ESignError::Signing { code, .. }) => assert_eq!(code, SigningErrorCode::InvalidInput),
            other => panic!("unexpected {:?}", other),
        }
    }
}

#[test]
fn shown_signer_defaults() {
    assert_eq!(shown_signer_name(&None), b"Digital Signature".to_vec());
    assert_eq!(shown_signer_name(&Some("Lê".to_string())), "Lê".as_bytes().to_vec());
}

#[test]
fn oversized_message_names_capacity() {
    let (pdf, br) = placeholder_pdf(b"%PDF-1.5\n", b">>\n%%EOF\n");
    match embed_signature(pdf, &vec![0u8; SIGNATURE_CONTAINER_SIZE + 1], &br) {
        Err(ESignError::Signing { message, .. }) => {
            assert_eq!(message, SIGNATURE_TOO_LARGE);
            assert!(message.contains("131072"));
        },
        other => panic!("unexpected {:?}", other.map(|v| v.len())),
    }
}

#[test]
fn invisible_widget_fields() {
    let input = make_pdf(2);
    let (cert, _, _) = test_certificate();
    let out = PdfSigningEngine::new().sign_pdf_bytes(&input, &invisible(1), &fake_sign, &no_timestamp, &cert).unwrap();
    let doc = Document::load_mem(&out).unwrap();
    let page_id = doc.page_iter().next().unwrap();
    let page = doc.get_object(page_id).unwrap().as_dict().unwrap();
    let annots = page.get(b"Annots").unwrap().as_array().unwrap();
    let widget = doc.get_object(annots.last().unwrap().as_reference().unwrap()).unwrap().as_dict().unwrap();
    assert_eq!(widget.get(b"FT").unwrap().as_name().unwrap(), b"Sig");
    assert!(widget.get(b"AP").is_err());
    let sig = doc.get_object(widget.get(b"V").unwrap().as_reference().unwrap()).unwrap().as_dict().unwrap();
    assert_eq!(sig.get(b"Reason").unwrap().as_str().unwrap(), b"Test");
    assert_eq!(sig.get(b"Name").unwrap().as_str().unwrap(), b"A");
}
