//! The signing flow over a PDF in memory: prepare the signature field,
//! digest the covered bytes, sign the attributes, optionally timestamp the
//! signature, and splice the CMS blob into the placeholder.
use vstd::prelude::*;
use vstd::string::StringExecFns;
use crate::cms::{build_cms_structure, build_signed_attributes, cms_for, signed_attributes};
use crate::crypto::{hex_text, is_upper_hex_digit, sha256_of};
use crate::der::bytes_of;
use crate::error::{ESignError, SigningErrorCode};
use crate::pdf_doc::{Rect, SignatureFields, insert_signature_field, load_pdf};
use crate::signature::{
    HEX_WINDOW, byte_range_written, calculate_byte_range, compute_document_digest, covered, embed_signature,
    is_byte_range_of, lemma_written_prefix, repeat, write_byte_range,
};
use vstd::string::StringSliceAdditionalSpecFns;
use crate::time::{CivilTime, format_signing_time, local_now, pdf_date_bytes, utc_now};
use lopdf::Document;

verus! {

/// Where and how the signature appears.
#[derive(Debug, Clone)]
pub struct PdfSigner {
    /// Page of the signature, counted from 1.
    pub page: u32,
    /// Lower-left x, in PDF points.
    pub llx: i32,
    /// Lower-left y, in PDF points.
    pub lly: i32,
    /// Upper-right x, in PDF points.
    pub urx: i32,
    /// Upper-right y, in PDF points.
    pub ury: i32,
    /// Font size of the signature text.
    pub sig_text_size: Option<u32>,
    /// The signer's name.
    pub signer: Option<String>,
    /// The reason for signing.
    pub description: Option<String>,
    /// Show only the description.
    pub only_description: Option<bool>,
    /// Signing time shown in the appearance, `HH:MM:SS DD/MM/YYYY`.
    pub signing_time: Option<String>,
    /// Serial number of the signing certificate.
    pub certificate_serial: Option<String>,
    /// Text color, `#RRGGBB`.
    pub sig_color_rgb: Option<String>,
    /// Background image, base64.
    pub image_base64: Option<String>,
    /// Use the image as background.
    pub set_image_background: Option<bool>,
    /// Whether the signature has a visible appearance.
    pub visible: bool,
}

/// A signature is visible unless said otherwise.
pub fn default_visible() -> (r: bool)
    ensures
        r,
{
    true
}

impl Default for PdfSigner {
    /// Page 1, rectangle (50, 50, 200, 100), 10 pt text, visible.
    fn default() -> (r: Self)
        ensures
            r.page == 1,
            r.llx == 50 && r.lly == 50 && r.urx == 200 && r.ury == 100,
            r.sig_text_size == Some(10u32),
            r.signer is None && r.description is None && r.signing_time is None,
            r.only_description == Some(false),
            r.set_image_background == Some(false),
            r.visible,
    {
        PdfSigner {
            page: 1,
            llx: 50,
            lly: 50,
            urx: 200,
            ury: 100,
            sig_text_size: Some(10),
            signer: None,
            description: None,
            only_description: Some(false),
            signing_time: None,
            certificate_serial: None,
            sig_color_rgb: None,
            image_base64: None,
            set_image_background: Some(false),
            visible: default_visible(),
        }
    }
}

/// The outcome of signing a file.
#[derive(Debug, Clone)]
pub struct SignResult {
    pub success: bool,
    pub output_path: String,
    pub message: String,
    pub signing_time: String,
    /// Set when the timestamp came over plain HTTP.
    pub tsa_warning: Option<String>,
}

/// `out` is a signed document for `cert`: `br` is the ByteRange of `out`
/// (the `/Contents` window with its angle brackets left out) and is written
/// in its `/ByteRange` array; it leaves out exactly the hex window of the
/// container, which holds, in upper-case hex padded with
/// `'0'`, the CMS blob over the signed attributes whose message digest is
/// the SHA-256 of the bytes `br` covers in `out` itself.
pub open spec fn signed_with(
    out: Seq<u8>,
    cert: Seq<u8>,
    br: Seq<usize>,
    t: CivilTime,
    sig: Seq<u8>,
    ts: Option<Seq<u8>>,
    cms: Seq<u8>,
) -> bool {
    &&& br.len() == 4
    &&& is_byte_range_of(out, br)
    &&& byte_range_written(out, br)
    &&& br[0] == 0
    &&& br[2] - br[1] == HEX_WINDOW + 2
    &&& br[1] + br[3] + (br[2] - br[1]) == out.len()
    &&& cms_for(cert, signed_attributes(sha256_of(covered(out, br)), t), sig, ts) == Some(cms)
    &&& out.subrange(br[1] + 1, br[2] - 1) == hex_text(cms, true) + repeat(0x30, (HEX_WINDOW - 2 * cms.len()) as nat)
    &&& forall|k: int| br[1] < k < br[2] - 1 ==> is_upper_hex_digit(#[trigger] out[k])
}

/// The view of an optional byte vector.
pub open spec fn opt_vec(o: Option<Vec<u8>>) -> Option<Seq<u8>> {
    match o {
        Some(v) => Some(v@),
        None => None,
    }
}

/// `out` was signed through the two callbacks: `sign_fn`, given the signed
/// attributes `a` over the digest of what `br` covers in `out`, returned
/// `sig`; `timestamp_fn`, given that signature, returned `ts`; and the
/// container holds the CMS blob over exactly these.
pub open spec fn signed_through<F, G>(
    out: Seq<u8>,
    cert: Seq<u8>,
    sign_fn: &F,
    timestamp_fn: &G,
    br: Seq<usize>,
    t: CivilTime,
    a: &[u8],
    sig: Vec<u8>,
    b: &[u8],
    ts: Option<Vec<u8>>,
    cms: Seq<u8>,
) -> bool where F: Fn(&[u8]) -> Result<Vec<u8>, ESignError>, G: Fn(&[u8]) -> Option<Vec<u8>> {
    &&& signed_with(out, cert, br, t, sig@, opt_vec(ts), cms)
    &&& a@ == signed_attributes(sha256_of(covered(out, br)), t)
    &&& sign_fn.ensures((a,), Ok(sig))
    &&& b@ == sig@
    &&& timestamp_fn.ensures((b,), ts)
}

/// `out` was signed through `sign_fn` and `timestamp_fn`, as
/// `signed_through` says, for some ByteRange, time and results.
pub open spec fn signed_by<F, G>(out: Seq<u8>, cert: Seq<u8>, sign_fn: &F, timestamp_fn: &G) -> bool where
    F: Fn(&[u8]) -> Result<Vec<u8>, ESignError>,
    G: Fn(&[u8]) -> Option<Vec<u8>>,
 {
    exists|br: Seq<usize>, t: CivilTime, a: &[u8], sig: Vec<u8>, b: &[u8], ts: Option<Vec<u8>>, cms: Seq<u8>|
        #[trigger] signed_through(out, cert, sign_fn, timestamp_fn, br, t, a, sig, b, ts, cms)
}

/// The signer's name shown in the appearance: the given one, or
/// `Digital Signature`.
pub fn shown_signer_name(signer: &Option<String>) -> (r: Vec<u8>)
    ensures
        match signer {
            Some(n) => r@ == vstd::utf8::encode_utf8(n@),
            None => r@ == "Digital Signature".spec_bytes(),
        },
{
    match signer {
        Some(n) => bytes_of(n.as_str().as_bytes()),
        None => bytes_of("Digital Signature".as_bytes()),
    }
}

/// Checks that the ByteRange of `pdf_bytes`, located afresh, is `br`.
pub fn same_byte_range(pdf_bytes: &[u8], br: &[usize; 4]) -> (r: Result<(), ESignError>)
    ensures
        r is Ok ==> is_byte_range_of(pdf_bytes@, br@),
        r matches Err(e) ==> e is Pdf,
{
    let found = match calculate_byte_range(pdf_bytes) {
        Ok(f) => f,
        Err(e) => {
            return Err(e);
        },
    };
    if found[0] != br[0] || found[1] != br[1] || found[2] != br[2] || found[3] != br[3] {
        return Err(ESignError::Pdf(String::from_str("The signature container moved")));
    }
    assert(found@ =~= br@);
    Ok(())
}

/// Highest page number a signing request may name.
pub const MAX_REQUEST_PAGE: u32 = 1000;

/// Longest reason, in bytes, a signing request may carry.
pub const MAX_REASON_BYTES: usize = 500;

/// Longest signer name, in bytes, a signing request may carry.
pub const MAX_SIGNER_BYTES: usize = 200;

/// The byte length of an optional text, zero when absent.
pub open spec fn opt_text_len(t: Option<String>) -> nat {
    match t {
        Some(s) => (vstd::utf8::encode_utf8(s@).len() as usize) as nat,
        None => 0,
    }
}

/// A signing request is acceptable: both paths are given, the page (when
/// given) is in `1..=1000`, the reason fits 500 bytes and the signer name
/// 200 bytes.
pub open spec fn sign_request_ok(pdf_path: Seq<char>, output_path: Seq<char>, page: Option<u32>, reason: Option<String>, signer: Option<String>) -> bool {
    &&& pdf_path.len() > 0
    &&& output_path.len() > 0
    &&& (page matches Some(p) ==> 1 <= p <= MAX_REQUEST_PAGE)
    &&& opt_text_len(reason) <= MAX_REASON_BYTES
    &&& opt_text_len(signer) <= MAX_SIGNER_BYTES
}

/// Checks the parameters of a signing request before any token work; a
/// rejected request is `InvalidInput`.
pub fn validate_sign_request(
    pdf_path: &str,
    output_path: &str,
    page: Option<u32>,
    reason: &Option<String>,
    signer: &Option<String>,
) -> (r: Result<(), ESignError>)
    ensures
        r is Ok <==> sign_request_ok(pdf_path@, output_path@, page, *reason, *signer),
        r matches Err(e) ==> (e matches ESignError::Signing { code, .. } && code == SigningErrorCode::InvalidInput),
{
    let invalid = |m: &str| -> (e: ESignError)
        ensures
            e matches ESignError::Signing { code, .. } && code == SigningErrorCode::InvalidInput,
        { ESignError::Signing { code: SigningErrorCode::InvalidInput, message: String::from_str(m) } };
    if pdf_path.is_empty() || output_path.is_empty() {
        return Err(invalid("Paths cannot be empty"));
    }
    match page {
        Some(p) => {
            if p == 0 || p > MAX_REQUEST_PAGE {
                return Err(invalid("Invalid page number (must be 1-1000)"));
            }
        },
        None => {},
    }
    match reason {
        Some(t) => {
            if t.as_str().len() > MAX_REASON_BYTES {
                return Err(invalid("Reason too long (max 500 characters)"));
            }
        },
        None => {},
    }
    match signer {
        Some(t) => {
            if t.as_str().len() > MAX_SIGNER_BYTES {
                return Err(invalid("Signer name too long (max 200 characters)"));
            }
        },
        None => {},
    }
    Ok(())
}

/// Signs PDFs in memory.
pub struct PdfSigningEngine {}

impl PdfSigningEngine {
    /// A signing engine.
    pub fn new() -> (r: Self) {
        PdfSigningEngine {}
    }

    /// SHA-256 over the spans a ByteRange covers.
    pub fn compute_document_digest(&self, pdf_bytes: &[u8], byte_range: &[usize; 4]) -> (r: Vec<u8>)
        requires
            byte_range@[0] + byte_range@[1] <= pdf_bytes@.len(),
        ensures
            r@ == sha256_of(covered(pdf_bytes@, byte_range@)),
    {
        compute_document_digest(pdf_bytes, byte_range)
    }

    /// Adds the signature field to `doc`, serializes it, locates the
    /// container window and writes the real ByteRange into its placeholder.
    /// `local` is the signing time written into the signature dictionary.
    pub fn prepare_pdf_for_signing(&self, doc: &mut Document, params: &PdfSigner, local: &CivilTime) -> (r: Result<(Vec<u8>, [usize; 4]), ESignError>)
        requires
            local.wf(),
        ensures
            r matches Ok((bytes, br)) ==> is_byte_range_of(bytes@, br@) && byte_range_written(bytes@, br@),
            params.page == 0 ==> r is Err,
    {
        let fields = SignatureFields {
            pdf_date: pdf_date_bytes(local),
            reason: match &params.description {
                Some(d) => Some(bytes_of(d.as_str().as_bytes())),
                None => None,
            },
            name: match &params.signer {
                Some(n) => Some(bytes_of(n.as_str().as_bytes())),
                None => None,
            },
        };
        let rect = if params.visible {
            Some(Rect { llx: params.llx, lly: params.lly, urx: params.urx, ury: params.ury })
        } else {
            None
        };
        let signer_name = shown_signer_name(&params.signer);
        let shown_time = match &params.signing_time {
            Some(t) => bytes_of(t.as_str().as_bytes()),
            None => bytes_of(format_signing_time(local).as_str().as_bytes()),
        };
        let mut bytes = match insert_signature_field(
            doc,
            params.page,
            &fields,
            rect,
            signer_name.as_slice(),
            shown_time.as_slice(),
        ) {
            Ok(b) => b,
            Err(e) => {
                return Err(e);
            },
        };
        let br = match calculate_byte_range(bytes.as_slice()) {
            Ok(br) => br,
            Err(e) => {
                return Err(e);
            },
        };
        match write_byte_range(&mut bytes, &br) {
            Ok(()) => {},
            Err(e) => {
                return Err(e);
            },
        }
        match same_byte_range(bytes.as_slice(), &br) {
            Ok(()) => {},
            Err(e) => {
                return Err(e);
            },
        }
        Ok((bytes, br))
    }

    /// Signs a PDF held in memory. The signature field is added and the
    /// ByteRange written first; then the covered bytes are digested, the
    /// signed attributes over that digest and the current UTC time are
    /// handed to `sign_fn`, the signature to `timestamp_fn` (a token it
    /// returns is added as an unsigned attribute; `None` leaves the
    /// signature without timestamp), and the CMS blob is spliced into the
    /// container. The result, when there is one, satisfies `signed_by`. An
    /// error of `sign_fn` is returned as it is.
    pub fn sign_pdf_bytes<F, G>(
        &self,
        pdf_bytes: &[u8],
        params: &PdfSigner,
        sign_fn: &F,
        timestamp_fn: &G,
        cert_der: &[u8],
    ) -> (r: Result<Vec<u8>, ESignError>) where
        F: Fn(&[u8]) -> Result<Vec<u8>, ESignError>,
        G: Fn(&[u8]) -> Option<Vec<u8>>,

        requires
            forall|d: &[u8]| #[trigger] sign_fn.requires((d,)),
            forall|s: &[u8]| #[trigger] timestamp_fn.requires((s,)),
        ensures
            r matches Ok(out) ==> signed_by(out@, cert_der@, sign_fn, timestamp_fn),
            r is Ok ==> params.page >= 1,
            params.page == 0 ==> r is Err,
            (forall|a: &[u8], x: Result<Vec<u8>, ESignError>| #[trigger] sign_fn.ensures((a,), x) ==> x is Err)
                ==> r is Err,
    {
        let local = local_now();
        let utc = utc_now();
        if !local.is_valid() || !utc.is_valid() {
            return Err(ESignError::Pdf(String::from_str("The clock reads a year outside 0..=9999")));
        }
        let mut doc = match load_pdf(pdf_bytes) {
            Ok(d) => d,
            Err(e) => {
                return Err(e);
            },
        };
        let (prepared, br) = match self.prepare_pdf_for_signing(&mut doc, params, &local) {
            Ok(p) => p,
            Err(e) => {
                return Err(e);
            },
        };
        let digest = compute_document_digest(prepared.as_slice(), &br);
        let attrs = build_signed_attributes(digest.as_slice(), &utc);
        let a = attrs.as_slice();
        let signature = match sign_fn(a) {
            Ok(s) => s,
            Err(e) => {
                return Err(e);
            },
        };
        let b = signature.as_slice();
        let token = timestamp_fn(b);
        let cms = match &token {
            Some(t) => build_cms_structure(cert_der, attrs.as_slice(), signature.as_slice(), Some(t.as_slice())),
            None => build_cms_structure(cert_der, attrs.as_slice(), signature.as_slice(), None),
        };
        let cms = match cms {
            Ok(c) => c,
            Err(e) => {
                return Err(e);
            },
        };
        let ghost ts = opt_vec(token);
        assert(cms_for(cert_der@, attrs@, signature@, ts) == Some(cms@));
        let ghost prepared_view = prepared@;
        let out = match embed_signature(prepared, cms.as_slice(), &br) {
            Ok(o) => o,
            Err(e) => {
                return Err(e);
            },
        };
        match same_byte_range(out.as_slice(), &br) {
            Ok(()) => {},
            Err(e) => {
                return Err(e);
            },
        }
        proof {
            assert(covered(out@, br@) == covered(prepared_view, br@));
            assert(attrs@ == signed_attributes(sha256_of(covered(out@, br@)), utc));
            let lo = br@[1] + 1;
            let hi = br@[2] - 1;
            assert(out@.subrange(lo, hi) =~= hex_text(cms@, true) + repeat(0x30, (HEX_WINDOW - 2 * cms@.len()) as nat));
            assert(out@.subrange(0, br@[1] as int) =~= prepared_view.subrange(0, br@[1] as int));
            lemma_written_prefix(prepared_view, out@, br@);
            assert(signed_with(out@, cert_der@, br@, utc, signature@, ts, cms@));
            assert(signed_through(out@, cert_der@, sign_fn, timestamp_fn, br@, utc, a, signature, b, token, cms@));
        }
        Ok(out)
    }
}

} // verus!
