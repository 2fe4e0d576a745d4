//! The signature field added to a PDF: the objects it is made of, built as
//! plain values, and their insertion into a document loaded by lopdf.
use vstd::prelude::*;
use vstd::string::{StringExecFns, StringSliceAdditionalSpecFns};
use lopdf::{Document, Object, StringFormat};
use crate::bytes::{decimal, push_decimal};
use crate::der::{append_bytes, bytes_of};
use crate::error::{ESignError, SigningErrorCode};
use crate::signature::select_page_index;

verus! {

#[verifier::external_type_specification]
#[verifier::external_body]
pub struct ExDocument(Document);

#[verifier::external_type_specification]
#[verifier::external_body]
pub struct ExObject(Object);

/// A PDF object as this library builds it.
#[derive(Debug)]
pub enum PdfObject {
    Integer(i64),
    Name(Vec<u8>),
    /// A string written as `( ... )`.
    Literal(Vec<u8>),
    /// A string written as `< ... >`.
    Hex(Vec<u8>),
    Array(Vec<PdfObject>),
    Dictionary(Vec<(Vec<u8>, PdfObject)>),
    /// An indirect reference: object number and generation.
    Reference(u32, u16),
}

/// Why a document failed to load, as lopdf reports it.
#[derive(Debug, Clone, PartialEq, Eq)]
pub enum LoadFailure {
    Decryption,
    EncryptionState,
    UnsupportedSecurityHandler,
    ToUnicodeCMap,
    Parse,
    Xref,
    ObjectStream,
    Stream,
    Decompress,
    Other(String),
}

/// Relies on lopdf's `Object` constructors: each variant of the plain
/// model becomes the same lopdf variant, recursively.
#[verifier::external_body]
fn to_lopdf(o: &PdfObject) -> (r: Object) {
    match o {
        PdfObject::Integer(i) => Object::Integer(*i),
        PdfObject::Name(n) => Object::Name(n.clone()),
        PdfObject::Literal(s) => Object::String(s.clone(), StringFormat::Literal),
        PdfObject::Hex(s) => Object::String(s.clone(), StringFormat::Hexadecimal),
        PdfObject::Array(v) => Object::Array(v.iter().map(to_lopdf).collect()),
        PdfObject::Dictionary(d) => Object::Dictionary(d.iter().map(|(k, v)| (k.clone(), to_lopdf(v))).collect()),
        PdfObject::Reference(n, g) => Object::Reference((*n, *g)),
    }
}

/// Relies on `Document::load_mem`, telling its error variants apart.
#[verifier::external_body]
fn load_document(bytes: &[u8]) -> (r: Result<Document, LoadFailure>) {
    Document::load_mem(bytes).map_err(|e| match e {
        lopdf::Error::Decryption(_) => LoadFailure::Decryption,
        lopdf::Error::NotEncrypted | lopdf::Error::AlreadyEncrypted => LoadFailure::EncryptionState,
        lopdf::Error::UnsupportedSecurityHandler(_) => LoadFailure::UnsupportedSecurityHandler,
        lopdf::Error::ToUnicodeCMap(_) => LoadFailure::ToUnicodeCMap,
        lopdf::Error::Parse(_) => LoadFailure::Parse,
        lopdf::Error::Xref(_) => LoadFailure::Xref,
        lopdf::Error::InvalidObjectStream(_) => LoadFailure::ObjectStream,
        lopdf::Error::InvalidStream(_) => LoadFailure::Stream,
        lopdf::Error::Decompress(_) => LoadFailure::Decompress,
        other => LoadFailure::Other(other.to_string()),
    })
}

/// Relies on `Document::catalog` and `Dictionary::get`: the catalog's
/// `AcroForm` entry when it is an indirect reference.
#[verifier::external_body]
fn catalog_acro_form(doc: &Document) -> (r: Result<Option<(u32, u16)>, String>) {
    doc.catalog().map(|c| match c.get(b"AcroForm") {
        Ok(Object::Reference(id)) => Some(*id),
        _ => None,
    }).map_err(|e| e.to_string())
}

/// Relies on `Document::add_object`: a fresh object id.
#[verifier::external_body]
fn add_object(doc: &mut Document, o: Object) -> (r: (u32, u16)) {
    doc.add_object(o)
}

/// Relies on `Document::add_object` with a `Stream` of the dictionary
/// `dict` and `content`.
#[verifier::external_body]
fn add_stream(doc: &mut Document, dict: Object, content: Vec<u8>) -> (r: (u32, u16)) {
    match dict {
        Object::Dictionary(d) => doc.add_object(lopdf::Stream::new(d, content)),
        other => doc.add_object(other),
    }
}

/// Relies on `Document::catalog_mut` and `Dictionary::set`.
#[verifier::external_body]
fn set_catalog_entry(doc: &mut Document, key: &[u8], value: Object) -> (r: Result<(), String>) {
    doc.catalog_mut().map(|c| c.set(key.to_vec(), value)).map_err(|e| e.to_string())
}

/// Relies on `Document::get_object_mut` and `Dictionary::get_mut`: appends
/// to the array under `key` of dictionary object `id`; false when there is
/// no such dictionary or the entry is not a direct array.
#[verifier::external_body]
fn push_to_array_entry(doc: &mut Document, id: (u32, u16), key: &[u8], value: Object) -> (r: bool) {
    match doc.get_object_mut(id).and_then(|o| o.as_dict_mut()).and_then(|d| d.get_mut(key)) {
        Ok(Object::Array(items)) => {
            items.push(value);
            true
        },
        _ => false,
    }
}

/// Relies on `Document::get_object_mut` and `Dictionary::set`: false when
/// `id` is not a dictionary object.
#[verifier::external_body]
fn set_dict_entry(doc: &mut Document, id: (u32, u16), key: &[u8], value: Object) -> (r: bool) {
    match doc.get_object_mut(id).and_then(|o| o.as_dict_mut()) {
        Ok(d) => {
            d.set(key.to_vec(), value);
            true
        },
        Err(_) => false,
    }
}

/// Relies on `Document::page_iter`: page object ids in page order.
#[verifier::external_body]
fn page_ids(doc: &Document) -> (r: Vec<(u32, u16)>) {
    doc.page_iter().collect()
}

/// Relies on `Document::save_to` into a byte buffer.
#[verifier::external_body]
fn save_document(doc: &mut Document) -> (r: Result<Vec<u8>, String>) {
    let mut out = Vec::new();
    doc.save_to(&mut out).map(|_| out).map_err(|e| e.to_string())
}

/// The user-facing message for a document that failed to load.
pub fn load_failure_message(f: &LoadFailure) -> (r: ESignError)
    ensures
        r is Pdf,
{
    let m = match f {
        LoadFailure::Decryption => String::from_str("File PDF được mã hóa. Vui lòng gỡ bảo vệ trước khi ký."),
        LoadFailure::EncryptionState => String::from_str("Lỗi xử lý mã hóa file PDF. Vui lòng kiểm tra lại file."),
        LoadFailure::UnsupportedSecurityHandler => String::from_str("File PDF sử dụng phương thức mã hóa không được hỗ trợ."),
        LoadFailure::ToUnicodeCMap => String::from_str(
            "File PDF có font chữ không được hỗ trợ. Vui lòng chuyển đổi sang định dạng chuẩn.",
        ),
        LoadFailure::Parse => String::from_str("File PDF không hợp lệ hoặc bị hư hỏng. Vui lòng kiểm tra lại file."),
        LoadFailure::Xref => String::from_str("Cấu trúc file PDF không hợp lệ. File có thể bị hư hỏng."),
        LoadFailure::ObjectStream => String::from_str(
            "File PDF sử dụng định dạng nén không được hỗ trợ. Vui lòng xuất lại file PDF.",
        ),
        LoadFailure::Stream => String::from_str("Dữ liệu trong file PDF không hợp lệ. File có thể bị hư hỏng."),
        LoadFailure::Decompress => String::from_str("Không thể giải nén dữ liệu PDF. File có thể bị hư hỏng."),
        LoadFailure::Other(s) => String::from_str("Lỗi xử lý file PDF: ").concat(s.as_str()),
    };
    ESignError::Pdf(m)
}

/// Loads a PDF from memory, with loader failures mapped to user-facing
/// messages.
pub fn load_pdf(bytes: &[u8]) -> (r: Result<Document, ESignError>)
    ensures
        r matches Err(e) ==> e is Pdf,
{
    match load_document(bytes) {
        Ok(d) => Ok(d),
        Err(f) => Err(load_failure_message(&f)),
    }
}

/// Entry `i` of a dictionary has key `key`.
pub open spec fn key_at(d: Seq<(Vec<u8>, PdfObject)>, i: int, key: &str) -> bool {
    0 <= i < d.len() && d[i].0@ == key.spec_bytes()
}

/// `o` is the name `n`.
pub open spec fn is_name(o: PdfObject, n: &str) -> bool {
    o matches PdfObject::Name(v) && v@ == n.spec_bytes()
}

/// `o` is the literal string `t`.
pub open spec fn is_literal(o: PdfObject, t: Seq<u8>) -> bool {
    o matches PdfObject::Literal(v) && v@ == t
}

/// `o` is the integer `n`.
pub open spec fn is_int(o: PdfObject, n: int) -> bool {
    o matches PdfObject::Integer(v) && v == n
}

/// `o` is an array of four integers.
pub open spec fn is_int4(o: PdfObject, a: int, b: int, c: int, e: int) -> bool {
    o matches PdfObject::Array(v) && v@.len() == 4 && is_int(v@[0], a) && is_int(v@[1], b) && is_int(v@[2], c)
        && is_int(v@[3], e)
}

/// `o` is the reference `id`.
pub open spec fn is_ref(o: PdfObject, id: (u32, u16)) -> bool {
    o == PdfObject::Reference(id.0, id.1)
}

/// A name object from its bytes.
fn name(b: &[u8]) -> (r: PdfObject)
    ensures
        r == PdfObject::Name(r->Name_0) && r->Name_0@ == b@,
{
    PdfObject::Name(bytes_of(b))
}

/// A dictionary entry.
fn entry(key: &[u8], value: PdfObject) -> (r: (Vec<u8>, PdfObject))
    ensures
        r.0@ == key@,
        r.1 == value,
{
    (bytes_of(key), value)
}

/// Placeholder written for each ByteRange number but the first: wide enough
/// for any offset or length of a file under 10 GB.
pub const BYTE_RANGE_PLACEHOLDER: i64 = 9_999_999_999;

/// Bytes of the zero placeholder the signature container starts as.
pub const PLACEHOLDER_BYTES: usize = 65536;

/// What goes into the signature dictionary besides its fixed entries.
pub struct SignatureFields {
    /// The `M` entry, `D:YYYYMMDDHHMMSS`.
    pub pdf_date: Vec<u8>,
    /// The `Reason` entry.
    pub reason: Option<Vec<u8>>,
    /// The `Name` entry.
    pub name: Option<Vec<u8>>,
}

/// The signature dictionary: `/Sig` handled by Adobe.PPKLite as
/// adbe.pkcs7.detached, a ByteRange placeholder of fixed width, then (so
/// that the ByteRange is written before it) a `Contents` hex string of
/// 65,536 zero bytes, the signing date and the optional reason and signer
/// name.
pub fn create_signature_dict(f: &SignatureFields) -> (r: PdfObject)
    ensures
        r matches PdfObject::Dictionary(d) && {
            let n = 6 + (if f.reason is Some { 1int } else { 0 });
            &&& d@.len() == n + (if f.name is Some { 1int } else { 0 })
            &&& key_at(d@, 0, "Type") && is_name(d@[0].1, "Sig")
            &&& key_at(d@, 1, "Filter") && is_name(d@[1].1, "Adobe.PPKLite")
            &&& key_at(d@, 2, "SubFilter") && is_name(d@[2].1, "adbe.pkcs7.detached")
            &&& key_at(d@, 3, "ByteRange") && is_int4(d@[3].1, 0, BYTE_RANGE_PLACEHOLDER as int, BYTE_RANGE_PLACEHOLDER as int, BYTE_RANGE_PLACEHOLDER as int)
            &&& key_at(d@, 4, "Contents") && (d@[4].1 matches PdfObject::Hex(z) && z@ == Seq::new(PLACEHOLDER_BYTES as nat, |i: int| 0u8))
            &&& key_at(d@, 5, "M") && is_literal(d@[5].1, f.pdf_date@)
            &&& (f.reason matches Some(t) ==> key_at(d@, 6, "Reason") && is_literal(d@[6].1, t@))
            &&& (f.name matches Some(t) ==> key_at(d@, n, "Name") && is_literal(d@[n].1, t@))
        },
{
    let mut d: Vec<(Vec<u8>, PdfObject)> = Vec::new();
    d.push(entry("Type".as_bytes(), name("Sig".as_bytes())));
    d.push(entry("Filter".as_bytes(), name("Adobe.PPKLite".as_bytes())));
    d.push(entry("SubFilter".as_bytes(), name("adbe.pkcs7.detached".as_bytes())));
    d.push(
        entry(
            "ByteRange".as_bytes(),
            PdfObject::Array(
                vec![
                    PdfObject::Integer(0),
                    PdfObject::Integer(BYTE_RANGE_PLACEHOLDER),
                    PdfObject::Integer(BYTE_RANGE_PLACEHOLDER),
                    PdfObject::Integer(BYTE_RANGE_PLACEHOLDER),
                ],
            ),
        ),
    );
    let zeros: Vec<u8> = vec![0u8; PLACEHOLDER_BYTES];
    assert(zeros@ =~= Seq::new(PLACEHOLDER_BYTES as nat, |i: int| 0u8));
    d.push(entry("Contents".as_bytes(), PdfObject::Hex(zeros)));
    d.push(entry("M".as_bytes(), PdfObject::Literal(bytes_of(f.pdf_date.as_slice()))));
    match &f.reason {
        Some(r) => d.push(entry("Reason".as_bytes(), PdfObject::Literal(bytes_of(r.as_slice())))),
        None => {},
    }
    match &f.name {
        Some(n) => d.push(entry("Name".as_bytes(), PdfObject::Literal(bytes_of(n.as_slice())))),
        None => {},
    }
    PdfObject::Dictionary(d)
}

/// Decimal form of a signed integer, with a leading `-` when negative.
pub open spec fn signed_decimal(n: int) -> Seq<u8> {
    if n < 0 {
        seq![0x2Du8] + decimal((-n) as nat)
    } else {
        decimal(n as nat)
    }
}

/// Appends the decimal form of a signed integer.
pub fn push_signed_decimal(buf: &mut Vec<u8>, n: i64)
    ensures
        final(buf)@ == old(buf)@ + signed_decimal(n as int),
{
    if n < 0 {
        buf.push(0x2D);
        let m: u64 = if n == i64::MIN {
            0x8000_0000_0000_0000u64
        } else {
            (-n) as u64
        };
        push_decimal(buf, m);
        assert(final(buf)@ =~= old(buf)@ + signed_decimal(n as int));
    } else {
        push_decimal(buf, n as u64);
    }
}

/// Appends the bytes of a text.
fn push_text(buf: &mut Vec<u8>, text: &[u8])
    ensures
        final(buf)@ == old(buf)@ + text@,
{
    append_bytes(buf, text);
}

/// The visible rectangle, in whole PDF points.
#[derive(Debug, Clone, Copy, PartialEq, Eq, Structural)]
pub struct Rect {
    pub llx: i32,
    pub lly: i32,
    pub urx: i32,
    pub ury: i32,
}

/// `q 1 1 1 rg 0 0 w h re f 0 0 0 rg BT /F1 10 Tf 10 (h - 20) Td (name) Tj
/// 0 -14 Td (time) Tj ET Q`, one operator per line.
pub open spec fn appearance_text(rect: Rect, name: Seq<u8>, time: Seq<u8>) -> Seq<u8> {
    let w = rect.urx - rect.llx;
    let h = rect.ury - rect.lly;
    "q\n1 1 1 rg\n0 0 ".spec_bytes() + signed_decimal(w) + " ".spec_bytes() + signed_decimal(h)
        + " re f\n0 0 0 rg\nBT\n/F1 10 Tf\n10 ".spec_bytes() + signed_decimal(h - 20) + " Td\n(".spec_bytes()
        + name + ") Tj\n0 -14 Td\n(".spec_bytes() + time + ") Tj\nET\nQ".spec_bytes()
}

/// The content stream of the visible appearance: a white box of the
/// rectangle's size with the signer's name and the signing time in
/// Helvetica 10 pt.
pub fn appearance_content(rect: &Rect, signer_name: &[u8], signing_time: &[u8]) -> (r: Vec<u8>)
    ensures
        r@ == appearance_text(*rect, signer_name@, signing_time@),
{
    let w = rect.urx as i64 - rect.llx as i64;
    let h = rect.ury as i64 - rect.lly as i64;
    let mut c: Vec<u8> = Vec::new();
    push_text(&mut c, "q\n1 1 1 rg\n0 0 ".as_bytes());
    push_signed_decimal(&mut c, w);
    push_text(&mut c, " ".as_bytes());
    push_signed_decimal(&mut c, h);
    push_text(&mut c, " re f\n0 0 0 rg\nBT\n/F1 10 Tf\n10 ".as_bytes());
    push_signed_decimal(&mut c, h - 20);
    push_text(&mut c, " Td\n(".as_bytes());
    append_bytes(&mut c, signer_name);
    push_text(&mut c, ") Tj\n0 -14 Td\n(".as_bytes());
    append_bytes(&mut c, signing_time);
    push_text(&mut c, ") Tj\nET\nQ".as_bytes());
    assert(c@ =~= appearance_text(*rect, signer_name@, signing_time@));
    c
}

/// `/Font << /F1 << /Type /Font /Subtype /Type1 /BaseFont /Helvetica >> >>`.
pub open spec fn is_helvetica_resources(o: PdfObject) -> bool {
    o matches PdfObject::Dictionary(res) && res@.len() == 1 && key_at(res@, 0, "Font")
        && (res@[0].1 matches PdfObject::Dictionary(fonts) && fonts@.len() == 1 && key_at(fonts@, 0, "F1")
        && (fonts@[0].1 matches PdfObject::Dictionary(f1) && f1@.len() == 3
        && key_at(f1@, 0, "Type") && is_name(f1@[0].1, "Font")
        && key_at(f1@, 1, "Subtype") && is_name(f1@[1].1, "Type1")
        && key_at(f1@, 2, "BaseFont") && is_name(f1@[2].1, "Helvetica")))
}

/// The dictionary of the appearance stream: a form XObject with a bounding
/// box of the rectangle's size and Helvetica as `/F1`.
pub fn appearance_dict(rect: &Rect) -> (r: Vec<(Vec<u8>, PdfObject)>)
    ensures
        r@.len() == 4,
        key_at(r@, 0, "Type") && is_name(r@[0].1, "XObject"),
        key_at(r@, 1, "Subtype") && is_name(r@[1].1, "Form"),
        key_at(r@, 2, "BBox") && is_int4(r@[2].1, 0, 0, rect.urx - rect.llx, rect.ury - rect.lly),
        key_at(r@, 3, "Resources") && is_helvetica_resources(r@[3].1),
{
    let w = rect.urx as i64 - rect.llx as i64;
    let h = rect.ury as i64 - rect.lly as i64;
    let f1 = PdfObject::Dictionary(
        vec![entry("Type".as_bytes(), name("Font".as_bytes())), entry("Subtype".as_bytes(), name("Type1".as_bytes())), entry("BaseFont".as_bytes(), name("Helvetica".as_bytes()))],
    );
    let fonts = PdfObject::Dictionary(vec![entry("F1".as_bytes(), f1)]);
    let resources = PdfObject::Dictionary(vec![entry("Font".as_bytes(), fonts)]);
    vec![
        entry("Type".as_bytes(), name("XObject".as_bytes())),
        entry("Subtype".as_bytes(), name("Form".as_bytes())),
        entry(
            "BBox".as_bytes(),
            PdfObject::Array(
                vec![PdfObject::Integer(0), PdfObject::Integer(0), PdfObject::Integer(w), PdfObject::Integer(h)],
            ),
        ),
        entry("Resources".as_bytes(), resources),
    ]
}

/// The signature widget: an annotation and field of type `/Sig` named
/// `Signature1`, flagged Print and Locked, pointing to the signature
/// dictionary, with the rectangle (all zeros when invisible) and, when
/// visible, the appearance stream `ap` as its normal appearance.
pub fn signature_widget(sig_id: (u32, u16), rect: Option<Rect>, ap: Option<(u32, u16)>) -> (r: PdfObject)
    ensures
        r matches PdfObject::Dictionary(d) && {
            &&& d@.len() == 7 + (if ap is Some { 1int } else { 0 })
            &&& key_at(d@, 0, "Type") && is_name(d@[0].1, "Annot")
            &&& key_at(d@, 1, "Subtype") && is_name(d@[1].1, "Widget")
            &&& key_at(d@, 2, "FT") && is_name(d@[2].1, "Sig")
            &&& key_at(d@, 3, "T") && is_literal(d@[3].1, "Signature1".spec_bytes())
            &&& key_at(d@, 4, "V") && is_ref(d@[4].1, sig_id)
            &&& key_at(d@, 5, "F") && is_int(d@[5].1, 132)
            &&& key_at(d@, 6, "Rect") && match rect {
                Some(q) => is_int4(d@[6].1, q.llx as int, q.lly as int, q.urx as int, q.ury as int),
                None => is_int4(d@[6].1, 0, 0, 0, 0),
            }
            &&& (ap matches Some(id) ==> key_at(d@, 7, "AP") && (d@[7].1 matches PdfObject::Dictionary(apd)
                && apd@.len() == 1 && key_at(apd@, 0, "N") && is_ref(apd@[0].1, id)))
        },
{
    let mut d: Vec<(Vec<u8>, PdfObject)> = Vec::new();
    d.push(entry("Type".as_bytes(), name("Annot".as_bytes())));
    d.push(entry("Subtype".as_bytes(), name("Widget".as_bytes())));
    d.push(entry("FT".as_bytes(), name("Sig".as_bytes())));
    d.push(entry("T".as_bytes(), PdfObject::Literal(bytes_of("Signature1".as_bytes()))));
    d.push(entry("V".as_bytes(), PdfObject::Reference(sig_id.0, sig_id.1)));
    d.push(entry("F".as_bytes(), PdfObject::Integer(132)));
    let corners = match rect {
        Some(r) => vec![
            PdfObject::Integer(r.llx as i64),
            PdfObject::Integer(r.lly as i64),
            PdfObject::Integer(r.urx as i64),
            PdfObject::Integer(r.ury as i64),
        ],
        None => vec![PdfObject::Integer(0), PdfObject::Integer(0), PdfObject::Integer(0), PdfObject::Integer(0)],
    };
    d.push(entry("Rect".as_bytes(), PdfObject::Array(corners)));
    match ap {
        Some(id) => d.push(entry("AP".as_bytes(), PdfObject::Dictionary(vec![entry("N".as_bytes(), PdfObject::Reference(id.0, id.1))]))),
        None => {},
    }
    PdfObject::Dictionary(d)
}

/// The AcroForm of the document: the catalog's existing one when it is an
/// indirect reference, otherwise a new one with no fields and `SigFlags` 3
/// (SignaturesExist | AppendOnly), hung off the catalog.
pub fn ensure_acro_form(doc: &mut Document) -> (r: Result<(u32, u16), ESignError>)
    ensures
        r matches Err(e) ==> e is Pdf,
{
    match catalog_acro_form(doc) {
        Ok(Some(id)) => {
            return Ok(id);
        },
        Ok(None) => {},
        Err(msg) => {
            return Err(ESignError::Pdf(String::from_str("Failed to get catalog: ").concat(msg.as_str())));
        },
    }
    let form = PdfObject::Dictionary(
        vec![entry("Fields".as_bytes(), PdfObject::Array(Vec::new())), entry("SigFlags".as_bytes(), PdfObject::Integer(3))],
    );
    let id = add_object(doc, to_lopdf(&form));
    match set_catalog_entry(doc, "AcroForm".as_bytes(), to_lopdf(&PdfObject::Reference(id.0, id.1))) {
        Ok(()) => Ok(id),
        Err(msg) => Err(ESignError::Pdf(String::from_str("Failed to get catalog: ").concat(msg.as_str()))),
    }
}

/// Adds the widget to the AcroForm's `Fields` array, when there is one.
pub fn add_field_to_acro_form(doc: &mut Document, acro_form_id: (u32, u16), widget_id: (u32, u16)) {
    let _ = push_to_array_entry(doc, acro_form_id, "Fields".as_bytes(), to_lopdf(&PdfObject::Reference(widget_id.0, widget_id.1)));
}

/// Adds the widget to the `Annots` of page `page` (one-based): appended to
/// a direct array, or set as a new one-element array otherwise. A page
/// number of 0 or beyond the last page is `InvalidSignaturePage`.
pub fn add_annotation_to_page(doc: &mut Document, page: u32, widget_id: (u32, u16)) -> (r: Result<(), ESignError>)
    ensures
        r matches Err(e) ==> (e matches ESignError::Signing { code, .. } && code == SigningErrorCode::InvalidSignaturePage),
        page == 0 ==> r is Err,
{
    let pages = page_ids(doc);
    let index = match select_page_index(page, pages.len()) {
        Ok(i) => i,
        Err(e) => {
            return Err(e);
        },
    };
    let page_id = pages[index];
    let reference = PdfObject::Reference(widget_id.0, widget_id.1);
    if !push_to_array_entry(doc, page_id, "Annots".as_bytes(), to_lopdf(&reference)) {
        let _ = set_dict_entry(doc, page_id, "Annots".as_bytes(), to_lopdf(&PdfObject::Array(vec![reference])));
    }
    Ok(())
}

/// Inserts the signature field: the signature dictionary, the widget (with
/// its appearance stream when `rect` is given), the AcroForm entry and the
/// page annotation; then serializes the document.
pub fn insert_signature_field(
    doc: &mut Document,
    page: u32,
    fields: &SignatureFields,
    rect: Option<Rect>,
    signer_name: &[u8],
    signing_time: &[u8],
) -> (r: Result<Vec<u8>, ESignError>)
    ensures
        r matches Err(e) ==> (e is Pdf || (e matches ESignError::Signing { code, .. } && code == SigningErrorCode::InvalidSignaturePage)),
        page == 0 ==> r is Err,
{
    let acro_form_id = match ensure_acro_form(doc) {
        Ok(id) => id,
        Err(e) => {
            return Err(e);
        },
    };
    let sig_id = add_object(doc, to_lopdf(&create_signature_dict(fields)));
    let ap = match rect {
        Some(r) => {
            let content = appearance_content(&r, signer_name, signing_time);
            Some(add_stream(doc, to_lopdf(&PdfObject::Dictionary(appearance_dict(&r))), content))
        },
        None => None,
    };
    let widget_id = add_object(doc, to_lopdf(&signature_widget(sig_id, rect, ap)));
    add_field_to_acro_form(doc, acro_form_id, widget_id);
    match add_annotation_to_page(doc, page, widget_id) {
        Ok(()) => {},
        Err(e) => {
            return Err(e);
        },
    }
    match save_document(doc) {
        Ok(b) => Ok(b),
        Err(msg) => Err(ESignError::Pdf(String::from_str("Failed to save PDF: ").concat(msg.as_str()))),
    }
}

} // verus!
