//! The token session manager over a PKCS#11 provider, through cryptoki.
use vstd::prelude::*;
use vstd::string::StringExecFns;
use cryptoki::context::{CInitializeArgs, Pkcs11};
use cryptoki::mechanism::Mechanism;
use cryptoki::object::{Attribute, AttributeType, ObjectClass, ObjectHandle};
use cryptoki::session::{Session, UserType};
use cryptoki::slot::Slot;
use cryptoki::types::AuthPin;
use crate::crypto::{base64_encode, base64_of, hex_encode, hex_text, sha256, sha256_of};
use crate::der::bytes_of;
use crate::error::{ESignError, SigningErrorCode};
use crate::pkcs11::chain::{build_certificate_chain, certs_view, issuers_from, MAX_CHAIN_LENGTH};
use crate::pkcs11::helpers::{
    arch_guidance, create_arch_mismatch_error, dn_text, format_dn_utf8, have_key, library_location_ok,
    need_key, quoted_text, validate_library_path,
};
use crate::pkcs11::library_paths::HostOs;
use crate::pkcs11::types::{CertificateInfo, TokenInfo};
use crate::time::{civil_of_timestamp, format_datetime, iso_text, text_from_bytes};
use vstd::utf8::{decode_utf8, valid_utf8};
use crate::x509::{cert_details, cert_names, x509_details, x509_name_attributes, x509_names};
use crate::bytes::{contains, contains_bytes};
use vstd::string::StringSliceAdditionalSpecFns;

verus! {

#[verifier::external_type_specification]
#[verifier::external_body]
pub struct ExPkcs11(Pkcs11);

#[verifier::external_type_specification]
#[verifier::external_body]
pub struct ExSession(Session);

#[verifier::external_type_specification]
#[verifier::external_body]
pub struct ExSlot(Slot);

#[verifier::external_type_specification]
#[verifier::external_body]
pub struct ExObjectHandle(ObjectHandle);

/// Relies on `Pkcs11::new`: loads the provider library at `path`.
#[verifier::external_body]
fn load_library(path: &str) -> (r: Result<Pkcs11, String>) {
    Pkcs11::new(path).map_err(|e| e.to_string())
}

/// Relies on `Pkcs11::initialize` with OS-thread locking.
#[verifier::external_body]
fn initialize_library(ctx: &Pkcs11) -> (r: Result<(), String>) {
    ctx.initialize(CInitializeArgs::OsThreads).map_err(|e| e.to_string())
}

/// Relies on `Pkcs11::get_slots_with_token`.
#[verifier::external_body]
fn slots_with_token(ctx: &Pkcs11) -> (r: Result<Vec<Slot>, String>) {
    ctx.get_slots_with_token().map_err(|e| e.to_string())
}

/// Relies on `Slot::id`.
#[verifier::external_body]
fn id_of_slot(slot: &Slot) -> (r: u64) {
    slot.id()
}

/// Relies on `Pkcs11::get_token_info`: label, manufacturer, model and
/// serial number of the token in `slot`.
#[verifier::external_body]
fn token_strings(ctx: &Pkcs11, slot: &Slot) -> (r: Result<(String, String, String, String), String>) {
    ctx.get_token_info(*slot).map(|t| (t.label().to_string(), t.manufacturer_id().to_string(), t.model().to_string(), t.serial_number().to_string())).map_err(|e| e.to_string())
}

/// Relies on `Pkcs11::open_rw_session`.
#[verifier::external_body]
fn open_rw_session(ctx: &Pkcs11, slot: &Slot) -> (r: Result<Session, String>) {
    ctx.open_rw_session(*slot).map_err(|e| e.to_string())
}

/// Relies on `Session::login` as the User role. The only copy of the PIN
/// is the `AuthPin` built here, a `SecretString`, which zeroizes itself
/// when dropped: on return and on unwinding alike.
#[verifier::external_body]
fn login_user(session: &Session, pin: &str) -> (r: Result<(), String>) {
    let auth = AuthPin::new(pin.to_string());
    session.login(UserType::User, Some(&auth)).map_err(|e| e.to_string())
}

/// Which objects to look for on the token.
#[derive(Debug, Clone, Copy, PartialEq, Eq, Structural)]
pub enum ObjectKind {
    /// Private keys that can sign.
    SigningKey,
    /// Certificates.
    Certificate,
}

/// Relies on `Session::find_objects` with the search template of `kind`.
#[verifier::external_body]
fn find_objects(session: &Session, kind: ObjectKind) -> (r: Result<Vec<ObjectHandle>, String>) {
    let template = match kind {
        ObjectKind::SigningKey => vec![Attribute::Class(ObjectClass::PRIVATE_KEY), Attribute::Sign(true)],
        ObjectKind::Certificate => vec![Attribute::Class(ObjectClass::CERTIFICATE)],
    };
    session.find_objects(&template).map_err(|e| e.to_string())
}

/// Relies on `Session::get_attributes` for the `Value` attribute.
#[verifier::external_body]
fn object_value(session: &Session, handle: &ObjectHandle) -> (r: Result<Option<Vec<u8>>, String>) {
    session.get_attributes(*handle, &[AttributeType::Value]).map(|attrs| attrs.into_iter().find_map(|a| match a {
        Attribute::Value(v) => Some(v),
        _ => None,
    })).map_err(|e| e.to_string())
}

/// The signing mechanisms the driver uses.
#[derive(Debug, Clone, Copy, PartialEq, Eq, Structural)]
pub enum SignMechanism {
    /// SHA-256 with RSA PKCS#1 v1.5; the token hashes.
    Sha256RsaPkcs,
    /// RSA PKCS#1 v1.5 over data hashed beforehand.
    RsaPkcs,
}

/// Relies on `Session::sign` with the mechanism named by `mechanism`.
#[verifier::external_body]
fn session_sign(session: &Session, mechanism: SignMechanism, key: &ObjectHandle, data: &[u8]) -> (r: Result<Vec<u8>, String>) {
    let m = match mechanism {
        SignMechanism::Sha256RsaPkcs => Mechanism::Sha256RsaPkcs,
        SignMechanism::RsaPkcs => Mechanism::RsaPkcs,
    };
    session.sign(&m, *key, data).map_err(|e| e.to_string())
}

/// Relies on `Session::logout`; a failure to log out is not reported.
#[verifier::external_body]
fn session_logout(session: &Session) {
    let _ = session.logout();
}

/// `r` is `s` without the spaces around it.
pub open spec fn is_trim_of(r: Seq<char>, s: Seq<char>) -> bool {
    exists|a: int, b: int| 0 <= a <= b <= s.len() && r == s.subrange(a, b)
        && (forall|k: int| 0 <= k < a ==> s[k] == ' ')
        && (forall|k: int| b <= k < s.len() ==> s[k] == ' ')
        && (a < b ==> s[a] != ' ' && s[b - 1] != ' ')
}

/// `s` neither starts nor ends with a space.
pub open spec fn unpadded(s: Seq<char>) -> bool {
    s.len() == 0 || (s[0] != ' ' && s[s.len() - 1] != ' ')
}

proof fn lemma_trim_unpadded(r: Seq<char>, s: Seq<char>)
    requires
        is_trim_of(r, s),
    ensures
        unpadded(r),
{
    let (a, b) = choose|a: int, b: int| 0 <= a <= b <= s.len() && r == s.subrange(a, b)
        && (forall|k: int| 0 <= k < a ==> s[k] == ' ')
        && (forall|k: int| b <= k < s.len() ==> s[k] == ' ')
        && (a < b ==> s[a] != ' ' && s[b - 1] != ' ');
    if a < b {
        assert(r[0] == s[a]);
        assert(r[r.len() - 1] == s[b - 1]);
    }
}

/// Drops the space padding PKCS#11 puts around token strings.
pub fn trim_padding(s: &str) -> (r: String)
    ensures
        is_trim_of(r@, s@),
{
    let n = s.unicode_len();
    let mut a: usize = 0;
    while a < n && s.get_char(a) == ' '
        invariant
            n == s@.len(),
            a <= n,
            forall|k: int| 0 <= k < a ==> s@[k] == ' ',
        decreases n - a,
    {
        a = a + 1;
    }
    let mut b: usize = n;
    while b > a && s.get_char(b - 1) == ' '
        invariant
            n == s@.len(),
            a <= b <= n,
            forall|k: int| b <= k < n ==> s@[k] == ' ',
        decreases b - a,
    {
        b = b - 1;
    }
    let r = String::from_str(s.substring_char(a, b));
    assert(0 <= a <= b <= s@.len() && r@ == s@.subrange(a as int, b as int));
    r
}

/// A token's information from the strings the token reports, each with its
/// padding removed.
pub fn token_info_from(slot_id: u64, label: &str, manufacturer: &str, model: &str, serial: &str) -> (r: TokenInfo)
    ensures
        r.slot_id == slot_id,
        r.has_token,
        is_trim_of(r.label@, label@),
        is_trim_of(r.manufacturer@, manufacturer@),
        is_trim_of(r.model@, model@),
        is_trim_of(r.serial@, serial@),
{
    TokenInfo {
        slot_id,
        label: trim_padding(label),
        manufacturer: trim_padding(manufacturer),
        model: trim_padding(model),
        serial: trim_padding(serial),
        has_token: true,
    }
}

/// The tokens read successfully, in slot order.
pub open spec fn read_tokens(outcomes: Seq<Result<TokenInfo, ESignError>>) -> Seq<TokenInfo>
    decreases outcomes.len(),
{
    if outcomes.len() == 0 {
        Seq::empty()
    } else {
        let rest = read_tokens(outcomes.drop_first());
        match outcomes[0] {
            Ok(t) => seq![t] + rest,
            Err(_) => rest,
        }
    }
}

/// A token read from a slot carries `has_token` and unpadded strings.
pub open spec fn good_token(t: TokenInfo) -> bool {
    t.has_token && unpadded(t.label@) && unpadded(t.manufacturer@) && unpadded(t.model@) && unpadded(t.serial@)
}

/// A slot outcome that is either an error or a good token.
pub open spec fn good_outcome(o: Result<TokenInfo, ESignError>) -> bool {
    match o {
        Ok(t) => good_token(t),
        Err(_) => true,
    }
}

proof fn lemma_read_tokens_keep(outcomes: Seq<Result<TokenInfo, ESignError>>)
    requires
        forall|k: int| 0 <= k < outcomes.len() ==> good_outcome(#[trigger] outcomes[k]),
    ensures
        forall|i: int| 0 <= i < read_tokens(outcomes).len() ==> good_token(#[trigger] read_tokens(outcomes)[i]),
    decreases outcomes.len(),
{
    if outcomes.len() > 0 {
        let rest = outcomes.drop_first();
        assert forall|k: int| 0 <= k < rest.len() implies good_outcome(#[trigger] rest[k]) by {
            assert(rest[k] == outcomes[k + 1]);
        }
        lemma_read_tokens_keep(rest);
        assert(good_outcome(outcomes[0]));
        let rt = read_tokens(outcomes);
        assert forall|i: int| 0 <= i < rt.len() implies good_token(#[trigger] rt[i]) by {
            match outcomes[0] {
                Ok(t) => {
                    if i > 0 {
                        assert(rt[i] == read_tokens(rest)[i - 1]);
                    }
                },
                Err(_) => {
                    assert(rt[i] == read_tokens(rest)[i]);
                },
            }
        }
    }
}

/// The slot listing from what each slot reported: the tokens read, in
/// order, with no slots giving the empty list; one aggregate `Pkcs11` error
/// only when there are slots and every one of them failed.
pub fn collect_tokens(outcomes: Vec<Result<TokenInfo, ESignError>>) -> (r: Result<Vec<TokenInfo>, ESignError>)
    ensures
        match r {
            Ok(v) => v@ == read_tokens(outcomes@) && (outcomes@.len() == 0 || v@.len() > 0),
            Err(e) => e is Pkcs11 && outcomes@.len() > 0 && read_tokens(outcomes@).len() == 0,
        },
{
    let ghost all = outcomes@;
    let n = outcomes.len();
    let mut rest = outcomes;
    let mut tokens: Vec<TokenInfo> = Vec::new();
    let mut errors = String::new();
    while rest.len() > 0
        invariant
            tokens@ + read_tokens(rest@) == read_tokens(all),
            n == all.len(),
        decreases rest@.len(),
    {
        let ghost before = rest@;
        let item = rest.remove(0);
        assert(rest@ == before.drop_first());
        match item {
            Ok(t) => {
                tokens.push(t);
                assert(tokens@ + read_tokens(rest@) =~= read_tokens(all));
            },
            Err(e) => {
                errors = errors.concat("\n").concat(e.to_string().as_str());
            },
        }
    }
    assert(tokens@ =~= read_tokens(all));
    if tokens.len() == 0 && n > 0 {
        return Err(
            ESignError::Pkcs11(
                String::from_str("Found slot(s) with token but failed to read token info:").concat(errors.as_str()),
            ),
        );
    }
    Ok(tokens)
}

/// The first index of `ids` that holds `slot_id`.
pub fn select_slot(ids: &[u64], slot_id: u64) -> (r: Option<usize>)
    ensures
        match r {
            Some(i) => i < ids@.len() && ids@[i as int] == slot_id && forall|j: int| 0 <= j < i ==> ids@[j] != slot_id,
            None => forall|j: int| 0 <= j < ids@.len() ==> ids@[j] != slot_id,
        },
{
    let mut i: usize = 0;
    while i < ids.len()
        invariant
            i <= ids@.len(),
            forall|j: int| 0 <= j < i ==> ids@[j] != slot_id,
        decreases ids@.len() - i,
    {
        if ids[i] == slot_id {
            return Some(i);
        }
        i = i + 1;
    }
    None
}

/// The values that are present, in order.
pub open spec fn present_values(values: Seq<Option<Vec<u8>>>) -> Seq<Seq<u8>>
    decreases values.len(),
{
    if values.len() == 0 {
        Seq::empty()
    } else {
        let rest = present_values(values.drop_first());
        match values[0] {
            Some(v) => seq![v@] + rest,
            None => rest,
        }
    }
}

/// Keeps the certificate values the token returned, in order, dropping
/// objects that had none.
pub fn keep_present(values: Vec<Option<Vec<u8>>>) -> (r: Vec<Vec<u8>>)
    ensures
        certs_view(r@) == present_values(values@),
{
    let ghost all = values@;
    let mut rest = values;
    let mut out: Vec<Vec<u8>> = Vec::new();
    while rest.len() > 0
        invariant
            certs_view(out@) + present_values(rest@) == present_values(all),
        decreases rest@.len(),
    {
        let ghost before = rest@;
        let ghost before_out = out@;
        let item = rest.remove(0);
        assert(rest@ == before.drop_first());
        match item {
            Some(v) => {
                out.push(v);
                assert(certs_view(out@) =~= certs_view(before_out).push(v@));
                assert(certs_view(out@) + present_values(rest@) =~= present_values(all));
            },
            None => {},
        }
    }
    assert(certs_view(out@) =~= present_values(all));
    out
}

/// The chain ordered from the first certificate value, as
/// `build_certificate_chain` builds it.
pub open spec fn chain_of_values(values: Seq<Seq<u8>>) -> Seq<Seq<u8>> {
    seq![values[0]] + issuers_from(values, values[0], MAX_CHAIN_LENGTH as nat)
}

/// The end-entity certificate, taken as the first value read from the
/// token, and the chain ordered from it; `CertificateNotFound` exactly when
/// there are no values.
pub fn end_entity_and_chain(values: &Vec<Vec<u8>>) -> (r: Result<(Vec<u8>, Vec<Vec<u8>>), ESignError>)
    ensures
        match r {
            Ok((ee, chain)) => values@.len() > 0 && ee@ == values@[0]@ && certs_view(chain@) == chain_of_values(certs_view(values@)),
            Err(e) => values@.len() == 0 && (e matches ESignError::Signing { code, .. } && code == SigningErrorCode::CertificateNotFound),
        },
{
    if values.len() == 0 {
        return Err(ESignError::Signing {
            code: SigningErrorCode::CertificateNotFound,
            message: String::from_str("No certificates found on token"),
        });
    }
    let end_entity = bytes_of(values[0].as_slice());
    let chain = build_certificate_chain(end_entity.as_slice(), values);
    assert(certs_view(values@)[0] == values@[0]@);
    Ok((end_entity, chain))
}

/// `incompatible architecture`.
pub open spec fn incompatible_marker() -> Seq<u8> {
    seq![
        0x69u8, 0x6E, 0x63, 0x6F, 0x6D, 0x70, 0x61, 0x74, 0x69, 0x62, 0x6C, 0x65, 0x20, 0x61, 0x72,
        0x63, 0x68, 0x69, 0x74, 0x65, 0x63, 0x74, 0x75, 0x72, 0x65,
    ]
}

/// The error for a provider library that failed to load: an architecture
/// mismatch when the loader says "incompatible architecture", a `Pkcs11`
/// error carrying the loader's message otherwise.
pub fn load_failure_error(msg: &str, library_path: &str, host_arch: &str) -> (r: ESignError)
    ensures
        contains(msg.spec_bytes(), incompatible_marker()) ==> (r matches ESignError::LibraryArchitectureMismatch {
            library_arch: la, host_arch: ha, library_path: lp, guidance: g }
            && la@ == quoted_text(msg.spec_bytes(), have_key(), "unknown"@)
            && ha@ == quoted_text(msg.spec_bytes(), need_key(), host_arch@)
            && lp@ == library_path@
            && g@ == arch_guidance(la@, ha@, library_path@)),
        !contains(msg.spec_bytes(), incompatible_marker()) ==> (r matches ESignError::Pkcs11(m)
            && m@ == "Failed to load PKCS#11 library: "@ + msg@),
{
    let marker: [u8; 25] = [
        0x69, 0x6E, 0x63, 0x6F, 0x6D, 0x70, 0x61, 0x74, 0x69, 0x62, 0x6C, 0x65, 0x20, 0x61, 0x72, 0x63,
        0x68, 0x69, 0x74, 0x65, 0x63, 0x74, 0x75, 0x72, 0x65,
    ];
    assert(marker@ =~= incompatible_marker());
    if contains_bytes(msg.as_bytes(), &marker) {
        create_arch_mismatch_error(msg, library_path, host_arch)
    } else {
        ESignError::Pkcs11(String::from_str("Failed to load PKCS#11 library: ").concat(msg))
    }
}

/// What `describe_certificate` returns for the DER `der`.
pub open spec fn certificate_info_ok(der: Seq<u8>, r: Result<CertificateInfo, ESignError>) -> bool {
    match r {
        Ok(info) => {
            &&& der.len() < 0x1000_0000
            &&& x509_details(der) matches Some((serial, nb, na))
            &&& x509_names(der) matches Some((iss, subj, _sn))
            &&& info.serial@ == serial
            &&& info.der_base64@ == base64_of(der)
            &&& (x509_name_attributes(subj) matches Some(a) ==> info.subject@ == dn_text(a))
            &&& (x509_name_attributes(iss) matches Some(a) ==> info.issuer@ == dn_text(a))
            &&& (valid_utf8(hex_text(sha256_of(der), false)) ==> info.thumbprint@ == decode_utf8(hex_text(sha256_of(der), false)))
            &&& (civil_of_timestamp(nb) matches Some(t) ==> (t.wf() && valid_utf8(iso_text(t)) ==> info.valid_from@ == decode_utf8(iso_text(t))))
            &&& (civil_of_timestamp(na) matches Some(t) ==> (t.wf() && valid_utf8(iso_text(t)) ==> info.valid_to@ == decode_utf8(iso_text(t))))
        },
        Err(e) => (e matches ESignError::Signing { code, .. } && code == SigningErrorCode::CertificateNotFound)
            && (der.len() >= 0x1000_0000 || x509_details(der) is None || x509_names(der) is None),
    }
}

/// Describes a DER certificate: serial, subject and issuer (with
/// UTF8String, PrintableString and BMPString values decoded), validity as
/// `YYYY-MM-DDTHH:MM:SSZ`, SHA-256 thumbprint in lower-case hex and the DER
/// in base64. A certificate that does not parse is `CertificateNotFound`.
pub fn describe_certificate(der: &[u8]) -> (r: Result<CertificateInfo, ESignError>)
    ensures
        certificate_info_ok(der@, r),
{
    if der.len() >= 0x1000_0000 {
        return Err(ESignError::Signing {
            code: SigningErrorCode::CertificateNotFound,
            message: String::from_str("Certificate too large"),
        });
    }
    match (cert_details(der), cert_names(der)) {
        (Some(d), Some(n)) => {
            let digest = sha256(der);
            let thumb = hex_encode(digest.as_slice(), false);
            Ok(CertificateInfo {
                serial: d.serial,
                subject: format_dn_utf8(n.subject.as_slice()),
                issuer: format_dn_utf8(n.issuer.as_slice()),
                valid_from: format_datetime(d.not_before),
                valid_to: format_datetime(d.not_after),
                thumbprint: text_from_bytes(thumb),
                der_base64: base64_encode(der),
            })
        },
        _ => Err(ESignError::Signing {
            code: SigningErrorCode::CertificateNotFound,
            message: String::from_str("Failed to parse certificate"),
        }),
    }
}

/// `cert` and `chain` come from the certificate values `values` read from a
/// token: the first value, and the chain ordered from it among all of them.
pub open spec fn chain_read_from(cert: Seq<u8>, chain: Seq<Seq<u8>>, values: Seq<Seq<u8>>) -> bool {
    values.len() > 0 && cert == values[0] && chain == chain_of_values(values)
}

/// `cert` and `chain` come from some list of certificate values read from
/// a token, as `chain_read_from` says.
pub open spec fn read_from_token(cert: Seq<u8>, chain: Seq<Seq<u8>>) -> bool {
    exists|values: Seq<Seq<u8>>| #[trigger] chain_read_from(cert, chain, values)
}

/// A token manager over one loaded provider library. At most one session
/// is open at a time; while it is, the signing key, the end-entity
/// certificate and the chain that starts with it are held beside it.
pub struct TokenManager {
    ctx: Pkcs11,
    session: Option<Session>,
    signing_key: Option<ObjectHandle>,
    certificate_der: Option<Vec<u8>>,
    certificate_chain: Vec<Vec<u8>>,
    library_path: String,
}

impl TokenManager {
    /// The path the provider library was loaded from.
    pub closed spec fn path_view(&self) -> Seq<char> {
        self.library_path@
    }

    /// A session is open.
    pub closed spec fn logged_in(&self) -> bool {
        self.session is Some
    }

    /// The end-entity certificate of the open session.
    pub closed spec fn certificate_view(&self) -> Option<Seq<u8>> {
        match self.certificate_der {
            Some(c) => Some(c@),
            None => None,
        }
    }

    /// The certificate chain of the open session.
    pub closed spec fn chain_view(&self) -> Seq<Seq<u8>> {
        certs_view(self.certificate_chain@)
    }

    /// Session, key, certificate and chain are present together, and the
    /// chain starts with the certificate.
    pub closed spec fn wf(&self) -> bool {
        &&& (self.session is Some) == (self.signing_key is Some)
        &&& (self.session is Some) == (self.certificate_der is Some)
        &&& (self.session is Some) == (self.certificate_chain@.len() > 0)
        &&& self.certificate_der matches Some(c) ==> self.certificate_chain@[0]@ == c@
    }

    /// Loads the provider library at `library_path`, whose canonical form is
    /// `canonical_path`, after checking that form against the host's
    /// allowed directories and library extension, and initializes it for
    /// OS-thread locking. A loader message that reports an incompatible
    /// architecture becomes `LibraryArchitectureMismatch`, with `host_arch`
    /// standing for the host where the message does not name it.
    pub fn new(library_path: &str, canonical_path: &str, os: HostOs, host_arch: &str) -> (r: Result<Self, ESignError>)
        ensures
            !library_location_ok(canonical_path.spec_bytes(), os) ==> r matches Err(ESignError::Pkcs11(_)),
            r matches Ok(m) ==> m.wf() && !m.logged_in() && m.path_view() == library_path@,
            r matches Err(e) ==> e is Pkcs11 || e is LibraryArchitectureMismatch,
    {
        match validate_library_path(canonical_path, os) {
            Ok(()) => {},
            Err(e) => {
                return Err(e);
            },
        }
        let ctx = match load_library(library_path) {
            Ok(c) => c,
            Err(msg) => {
                return Err(load_failure_error(msg.as_str(), library_path, host_arch));
            },
        };
        match initialize_library(&ctx) {
            Ok(()) => {},
            Err(msg) => {
                return Err(
                    ESignError::Pkcs11(String::from_str("Failed to initialize PKCS#11: ").concat(msg.as_str())),
                );
            },
        }
        Ok(TokenManager {
            ctx,
            session: None,
            signing_key: None,
            certificate_der: None,
            certificate_chain: Vec::new(),
            library_path: String::from_str(library_path),
        })
    }

    /// The path the provider library was loaded from.
    pub fn library_path(&self) -> (r: &str)
        ensures
            r@ == self.path_view(),
    {
        self.library_path.as_str()
    }

    /// Information on the token in `slot`, its strings stripped of padding.
    fn get_token_info(&self, slot: &Slot) -> (r: Result<TokenInfo, ESignError>)
        ensures
            r matches Ok(t) ==> good_token(t),
            r matches Err(e) ==> e is Pkcs11,
    {
        match token_strings(&self.ctx, slot) {
            Ok((label, manufacturer, model, serial)) => {
                let t = token_info_from(id_of_slot(slot), label.as_str(), manufacturer.as_str(), model.as_str(), serial.as_str());
                proof {
                    lemma_trim_unpadded(t.label@, label@);
                    lemma_trim_unpadded(t.manufacturer@, manufacturer@);
                    lemma_trim_unpadded(t.model@, model@);
                    lemma_trim_unpadded(t.serial@, serial@);
                }
                Ok(t)
            },
            Err(msg) => Err(ESignError::Pkcs11(String::from_str("Failed to get token info: ").concat(msg.as_str()))),
        }
    }

    /// The slots that hold a token, in slot order, their strings stripped of
    /// padding. Slots whose token cannot be read are left out; when every
    /// slot fails, the result is one `Pkcs11` error for all of them.
    pub fn list_slots(&self) -> (r: Result<Vec<TokenInfo>, ESignError>)
        ensures
            r matches Ok(v) ==> forall|i: int| 0 <= i < v@.len() ==> good_token(#[trigger] v@[i]),
            r matches Err(e) ==> e is Pkcs11,
    {
        let slots = match slots_with_token(&self.ctx) {
            Ok(s) => s,
            Err(msg) => {
                return Err(ESignError::Pkcs11(String::from_str("Failed to enumerate slots: ").concat(msg.as_str())));
            },
        };
        let mut outcomes: Vec<Result<TokenInfo, ESignError>> = Vec::new();
        let mut i: usize = 0;
        while i < slots.len()
            invariant
                i <= slots@.len(),
                forall|k: int| 0 <= k < outcomes@.len() ==> good_outcome(#[trigger] outcomes@[k]),
            decreases slots@.len() - i,
        {
            outcomes.push(self.get_token_info(&slots[i]));
            i = i + 1;
        }
        proof {
            lemma_read_tokens_keep(outcomes@);
        }
        collect_tokens(outcomes)
    }

    /// The first private key that can sign.
    fn find_signing_key(session: &Session) -> (r: Result<ObjectHandle, ESignError>)
        ensures
            r matches Err(e) ==> (e matches ESignError::Signing { code, .. } && code == SigningErrorCode::PrivateKeyNotFound),
    {
        let keys = match find_objects(session, ObjectKind::SigningKey) {
            Ok(k) => k,
            Err(msg) => {
                return Err(ESignError::Signing {
                    code: SigningErrorCode::PrivateKeyNotFound,
                    message: String::from_str("Failed to search for private key: ").concat(msg.as_str()),
                });
            },
        };
        if keys.len() == 0 {
            return Err(ESignError::Signing {
                code: SigningErrorCode::PrivateKeyNotFound,
                message: String::from_str("No signing private key found on token"),
            });
        }
        Ok(keys[0])
    }

    /// The `Value` of every certificate object on the token, in the order
    /// the token lists them; `None` for an object without one.
    fn read_certificates(session: &Session) -> (r: Result<Vec<Option<Vec<u8>>>, ESignError>)
        ensures
            r matches Err(e) ==> (e matches ESignError::Signing { code, .. } && code == SigningErrorCode::CertificateNotFound),
    {
        let handles = match find_objects(session, ObjectKind::Certificate) {
            Ok(h) => h,
            Err(msg) => {
                return Err(ESignError::Signing {
                    code: SigningErrorCode::CertificateNotFound,
                    message: String::from_str("Failed to search for certificates: ").concat(msg.as_str()),
                });
            },
        };
        let mut all: Vec<Option<Vec<u8>>> = Vec::new();
        let mut i: usize = 0;
        while i < handles.len()
            invariant
                i <= handles@.len(),
            decreases handles@.len() - i,
        {
            match object_value(session, &handles[i]) {
                Ok(v) => all.push(v),
                Err(msg) => {
                    return Err(ESignError::Signing {
                        code: SigningErrorCode::CertificateNotFound,
                        message: String::from_str("Failed to read certificate: ").concat(msg.as_str()),
                    });
                },
            }
            i = i + 1;
        }
        Ok(all)
    }

    /// Opens a read-write session on the token in the first slot whose id
    /// is `slot_id`, logs in as the user with `pin`, then finds the signing
    /// key and the certificates, taking the first certificate value as the
    /// end entity and ordering the chain from it. The copy of the PIN handed
    /// to the token is zeroized when it is dropped, also on unwinding; no
    /// other copy is made.
    /// Session, key, certificate and chain are stored together, only once
    /// every step has succeeded; a failure leaves the manager as it was.
    /// Failures: no slot list or no such slot is `TokenNotFound`, a refused
    /// PIN is `SigningFailed`, no signing key is `PrivateKeyNotFound`, no
    /// certificate is `CertificateNotFound`, and a session that cannot be
    /// opened is a `Pkcs11` error.
    pub fn login(&mut self, slot_id: u64, pin: &str) -> (r: Result<(), ESignError>)
        requires
            old(self).wf(),
        ensures
            final(self).wf(),
            final(self).path_view() == old(self).path_view(),
            r is Ok ==> final(self).logged_in() && (final(self).certificate_view() matches Some(c)
                && read_from_token(c, final(self).chain_view())),
            r is Err ==> *final(self) == *old(self),
            r matches Err(e) ==> e is Pkcs11 || (e matches ESignError::Signing { code, .. } && (code
                == SigningErrorCode::TokenNotFound || code == SigningErrorCode::SigningFailed || code
                == SigningErrorCode::PrivateKeyNotFound || code == SigningErrorCode::CertificateNotFound)),
    {
        let slots = match slots_with_token(&self.ctx) {
            Ok(s) => s,
            Err(msg) => {
                return Err(ESignError::Signing {
                    code: SigningErrorCode::TokenNotFound,
                    message: String::from_str("Failed to get slots: ").concat(msg.as_str()),
                });
            },
        };
        let mut ids: Vec<u64> = Vec::new();
        let mut i: usize = 0;
        while i < slots.len()
            invariant
                i <= slots@.len(),
                ids@.len() == i,
            decreases slots@.len() - i,
        {
            ids.push(id_of_slot(&slots[i]));
            i = i + 1;
        }
        let slot = match select_slot(ids.as_slice(), slot_id) {
            Some(k) => &slots[k],
            None => {
                return Err(ESignError::Signing {
                    code: SigningErrorCode::TokenNotFound,
                    message: String::from_str("Slot not found"),
                });
            },
        };
        let session = match open_rw_session(&self.ctx, slot) {
            Ok(s) => s,
            Err(msg) => {
                return Err(ESignError::Pkcs11(String::from_str("Failed to open session: ").concat(msg.as_str())));
            },
        };
        let login_result = login_user(&session, pin);
        match login_result {
            Ok(()) => {},
            Err(msg) => {
                return Err(ESignError::Signing {
                    code: SigningErrorCode::SigningFailed,
                    message: String::from_str("PIN authentication failed: ").concat(msg.as_str()),
                });
            },
        }
        let key = match Self::find_signing_key(&session) {
            Ok(k) => k,
            Err(e) => {
                return Err(e);
            },
        };
        let read = match Self::read_certificates(&session) {
            Ok(a) => a,
            Err(e) => {
                return Err(e);
            },
        };
        let values = keep_present(read);
        let (end_entity, chain) = match end_entity_and_chain(&values) {
            Ok(p) => p,
            Err(e) => {
                return Err(e);
            },
        };
        let ghost ee = end_entity@;
        let ghost vals = certs_view(values@);
        proof {
            assert(certs_view(chain@)[0] == ee);
            assert(certs_view(chain@).len() == chain@.len());
            assert(certs_view(chain@)[0] == chain@[0]@);
            assert(vals[0] == values@[0]@);
            assert(vals.len() == values@.len());
            assert(vals.len() > 0);
        }
        self.session = Some(session);
        self.signing_key = Some(key);
        self.certificate_der = Some(end_entity);
        self.certificate_chain = chain;
        proof {
            assert(self.certificate_view() == Some(ee));
            assert(self.chain_view() == certs_view(chain@));
            assert(chain_read_from(ee, self.chain_view(), vals));
            assert(read_from_token(ee, self.chain_view()));
        }
        Ok(())
    }

    /// The end-entity certificate's serial, subject and issuer (with
    /// UTF8String, PrintableString and BMPString values decoded), validity
    /// as `YYYY-MM-DDTHH:MM:SSZ`, SHA-256 thumbprint in lower-case hex and
    /// its DER in base64. Fails with `CertificateNotFound` when no session
    /// is open or the certificate does not parse.
    pub fn get_certificate_info(&self) -> (r: Result<CertificateInfo, ESignError>)
        ensures
            match self.certificate_view() {
                Some(der) => certificate_info_ok(der, r),
                None => r matches Err(ESignError::Signing { code, .. }) && code == SigningErrorCode::CertificateNotFound,
            },
    {
        match &self.certificate_der {
            Some(d) => describe_certificate(d.as_slice()),
            None => Err(ESignError::Signing {
                code: SigningErrorCode::CertificateNotFound,
                message: String::from_str("Not logged in or no certificate available"),
            }),
        }
    }

    /// The end-entity certificate's DER.
    pub fn get_certificate_der(&self) -> (r: Result<Vec<u8>, ESignError>)
        ensures
            match r {
                Ok(v) => self.certificate_view() == Some(v@),
                Err(e) => self.certificate_view() is None && (e matches ESignError::Signing { code, .. }
                    && code == SigningErrorCode::CertificateNotFound),
            },
    {
        match &self.certificate_der {
            Some(d) => Ok(bytes_of(d.as_slice())),
            None => Err(ESignError::Signing {
                code: SigningErrorCode::CertificateNotFound,
                message: String::from_str("Not logged in or no certificate available"),
            }),
        }
    }

    /// The certificate chain, end entity first.
    pub fn get_certificate_chain(&self) -> (r: Result<Vec<Vec<u8>>, ESignError>)
        ensures
            match r {
                Ok(v) => certs_view(v@) == self.chain_view() && v@.len() > 0,
                Err(e) => self.chain_view().len() == 0 && (e matches ESignError::Signing { code, .. }
                    && code == SigningErrorCode::CertificateNotFound),
            },
    {
        if self.certificate_chain.len() == 0 {
            return Err(ESignError::Signing {
                code: SigningErrorCode::CertificateNotFound,
                message: String::from_str("Not logged in or no certificate chain available"),
            });
        }
        let mut out: Vec<Vec<u8>> = Vec::new();
        let mut i: usize = 0;
        while i < self.certificate_chain.len()
            invariant
                i <= self.certificate_chain@.len(),
                certs_view(out@) == certs_view(self.certificate_chain@.subrange(0, i as int)),
            decreases self.certificate_chain@.len() - i,
        {
            let c = bytes_of(self.certificate_chain[i].as_slice());
            let ghost before = out@;
            out.push(c);
            proof {
                assert(certs_view(out@) =~= certs_view(before).push(c@));
                assert(self.certificate_chain@.subrange(0, i + 1) =~= self.certificate_chain@.subrange(0, i as int).push(self.certificate_chain@[i as int]));
                assert(certs_view(self.certificate_chain@.subrange(0, i + 1)) =~= certs_view(self.certificate_chain@.subrange(0, i as int)).push(c@));
            }
            i = i + 1;
        }
        assert(self.certificate_chain@.subrange(0, i as int) =~= self.certificate_chain@);
        Ok(out)
    }

    /// Signs with the session's key under `mechanism`.
    fn sign_with(&self, mechanism: SignMechanism, data: &[u8]) -> (r: Result<Vec<u8>, ESignError>)
        ensures
            !self.logged_in() ==> (r matches Err(ESignError::Signing { code, .. }) && code == SigningErrorCode::TokenNotFound),
            r matches Err(ESignError::Signing { code, .. }) ==> code == SigningErrorCode::TokenNotFound
                || code == SigningErrorCode::PrivateKeyNotFound || code == SigningErrorCode::SigningFailed,
            self.wf() && self.logged_in() ==> (r is Ok || (r matches Err(ESignError::Signing { code, .. })
                && code == SigningErrorCode::SigningFailed)),
    {
        let session = match &self.session {
            Some(s) => s,
            None => {
                return Err(ESignError::Signing { code: SigningErrorCode::TokenNotFound, message: String::from_str("Not logged in") });
            },
        };
        let key = match &self.signing_key {
            Some(k) => k,
            None => {
                return Err(ESignError::Signing {
                    code: SigningErrorCode::PrivateKeyNotFound,
                    message: String::from_str("No signing key available"),
                });
            },
        };
        match session_sign(session, mechanism, key, data) {
            Ok(sig) => Ok(sig),
            Err(msg) => Err(ESignError::Signing {
                code: SigningErrorCode::SigningFailed,
                message: String::from_str("Signing operation failed: ").concat(msg.as_str()),
            }),
        }
    }

    /// Signs `data` with SHA-256 with RSA PKCS#1 v1.5; the token hashes
    /// the data itself.
    pub fn sign(&self, data: &[u8]) -> (r: Result<Vec<u8>, ESignError>)
        ensures
            !self.logged_in() ==> (r matches Err(ESignError::Signing { code, .. }) && code == SigningErrorCode::TokenNotFound),
            r matches Err(ESignError::Signing { code, .. }) ==> code == SigningErrorCode::TokenNotFound
                || code == SigningErrorCode::PrivateKeyNotFound || code == SigningErrorCode::SigningFailed,
            self.wf() && self.logged_in() ==> (r is Ok || (r matches Err(ESignError::Signing { code, .. })
                && code == SigningErrorCode::SigningFailed)),
    {
        self.sign_with(SignMechanism::Sha256RsaPkcs, data)
    }

    /// Signs an already computed digest with RSA PKCS#1 v1.5.
    pub fn sign_digest(&self, digest: &[u8]) -> (r: Result<Vec<u8>, ESignError>)
        ensures
            !self.logged_in() ==> (r matches Err(ESignError::Signing { code, .. }) && code == SigningErrorCode::TokenNotFound),
            r matches Err(ESignError::Signing { code, .. }) ==> code == SigningErrorCode::TokenNotFound
                || code == SigningErrorCode::PrivateKeyNotFound || code == SigningErrorCode::SigningFailed,
            self.wf() && self.logged_in() ==> (r is Ok || (r matches Err(ESignError::Signing { code, .. })
                && code == SigningErrorCode::SigningFailed)),
    {
        self.sign_with(SignMechanism::RsaPkcs, digest)
    }

    /// Clears key, certificate and chain and closes the session after
    /// logging out. Doing it twice is harmless.
    pub fn logout(&mut self)
        ensures
            final(self).wf(),
            !final(self).logged_in(),
            final(self).certificate_view() is None,
            final(self).chain_view().len() == 0,
            final(self).path_view() == old(self).path_view(),
    {
        self.signing_key = None;
        self.certificate_der = None;
        self.certificate_chain = Vec::new();
        match self.session.take() {
            Some(s) => session_logout(&s),
            None => {},
        }
        assert(certs_view(self.certificate_chain@) =~= Seq::<Seq<u8>>::empty());
    }

    /// Whether a session is open.
    pub fn is_logged_in(&self) -> (r: bool)
        ensures
            r == self.logged_in(),
    {
        self.session.is_some()
    }
}

} // verus!
