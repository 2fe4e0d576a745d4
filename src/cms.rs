//! The detached CMS SignedData profile of a PAdES-BES signature, encoded by
//! hand from DER primitives.
use vstd::prelude::*;
use crate::der::{MAX_DER_LEN, lemma_tlv_round_trip, append_bytes, attribute, build_attribute, build_octet_string, build_oid, build_sequence, build_set, build_sha256_algorithm_identifier, build_tlv, bytes_of, parse_asn1_length, parse_tlv, sha256_algorithm_identifier, tlv};
use crate::error::ESignError;
use crate::time::{CivilTime, utc_time_bytes, utc_time_text};
use crate::x509::{cert_names, x509_names};
use vstd::string::StringExecFns;

verus! {

/// Largest size of each input part of a CMS blob (certificate, signed
/// attributes, signature, timestamp token, issuer name, serial).
pub const CMS_PART_LIMIT: usize = 0x10_0000;

/// id-contentType, 1.2.840.113549.1.9.3.
pub open spec fn content_type_oid() -> Seq<u8> {
    seq![0x2Au8, 0x86, 0x48, 0x86, 0xF7, 0x0D, 0x01, 0x09, 0x03]
}

/// id-data, 1.2.840.113549.1.7.1.
pub open spec fn data_oid() -> Seq<u8> {
    seq![0x2Au8, 0x86, 0x48, 0x86, 0xF7, 0x0D, 0x01, 0x07, 0x01]
}

/// id-messageDigest, 1.2.840.113549.1.9.4.
pub open spec fn message_digest_oid() -> Seq<u8> {
    seq![0x2Au8, 0x86, 0x48, 0x86, 0xF7, 0x0D, 0x01, 0x09, 0x04]
}

/// id-signingTime, 1.2.840.113549.1.9.5.
pub open spec fn signing_time_oid() -> Seq<u8> {
    seq![0x2Au8, 0x86, 0x48, 0x86, 0xF7, 0x0D, 0x01, 0x09, 0x05]
}

/// sha256WithRSAEncryption, 1.2.840.113549.1.1.11.
pub open spec fn rsa_sha256_oid() -> Seq<u8> {
    seq![0x2Au8, 0x86, 0x48, 0x86, 0xF7, 0x0D, 0x01, 0x01, 0x0B]
}

/// id-signedData, 1.2.840.113549.1.7.2.
pub open spec fn signed_data_oid() -> Seq<u8> {
    seq![0x2Au8, 0x86, 0x48, 0x86, 0xF7, 0x0D, 0x01, 0x07, 0x02]
}

/// id-aa-signatureTimeStampToken, 1.2.840.113549.1.9.16.2.14.
pub open spec fn timestamp_token_oid() -> Seq<u8> {
    seq![0x2Au8, 0x86, 0x48, 0x86, 0xF7, 0x0D, 0x01, 0x09, 0x10, 0x02, 0x0E]
}

/// The content of the SignedAttributes SET: content type, message digest
/// and signing time, in that order.
pub open spec fn signed_attributes_content(digest: Seq<u8>, t: CivilTime) -> Seq<u8> {
    attribute(content_type_oid(), tlv(0x06, data_oid())) + attribute(
        message_digest_oid(),
        tlv(0x04, digest),
    ) + attribute(signing_time_oid(), tlv(0x17, utc_time_text(t)))
}

/// The DER SignedAttributes: the bytes the token signs.
pub open spec fn signed_attributes(digest: Seq<u8>, t: CivilTime) -> Seq<u8> {
    tlv(0x31, signed_attributes_content(digest, t))
}

/// IssuerAndSerialNumber from the issuer's DER and the serial's content.
pub open spec fn issuer_and_serial(issuer: Seq<u8>, serial: Seq<u8>) -> Seq<u8> {
    tlv(0x30, issuer + tlv(0x02, serial))
}

/// AlgorithmIdentifier { sha256WithRSAEncryption, NULL }.
pub open spec fn rsa_sha256_algorithm() -> Seq<u8> {
    tlv(0x30, tlv(0x06, rsa_sha256_oid()) + seq![0x05u8, 0x00])
}

/// `[1] IMPLICIT` unsigned attributes holding one signature timestamp.
pub open spec fn unsigned_attributes(token: Seq<u8>) -> Seq<u8> {
    tlv(0xA1, attribute(timestamp_token_oid(), token))
}

/// SignerInfo version 1 with issuer-and-serial, the signed attributes
/// under `[0] IMPLICIT`, the signature, and the timestamp when there is one.
pub open spec fn signer_info(sid: Seq<u8>, attrs_content: Seq<u8>, signature: Seq<u8>, ts: Option<Seq<u8>>) -> Seq<u8> {
    tlv(
        0x30,
        seq![0x02u8, 0x01, 0x01] + sid + sha256_algorithm_identifier() + tlv(0xA0, attrs_content)
            + rsa_sha256_algorithm() + tlv(0x04, signature) + match ts {
            Some(tok) => unsigned_attributes(tok),
            None => Seq::empty(),
        },
    )
}

/// SignedData version 3, detached, with the one certificate and the one
/// SignerInfo.
pub open spec fn signed_data(cert: Seq<u8>, signer: Seq<u8>) -> Seq<u8> {
    tlv(
        0x30,
        seq![0x02u8, 0x01, 0x03] + tlv(0x31, sha256_algorithm_identifier()) + tlv(
            0x30,
            tlv(0x06, data_oid()),
        ) + tlv(0xA0, cert) + tlv(0x31, signer),
    )
}

/// ContentInfo { signedData, [0] EXPLICIT SignedData }.
pub open spec fn content_info(sd: Seq<u8>) -> Seq<u8> {
    tlv(0x30, tlv(0x06, signed_data_oid()) + tlv(0xA0, sd))
}

/// The view of an optional byte slice.
pub open spec fn opt_bytes(o: Option<&[u8]>) -> Option<Seq<u8>> {
    match o {
        Some(b) => Some(b@),
        None => None,
    }
}

/// Whether every part fits the encoder's limits.
pub open spec fn parts_fit(cert: Seq<u8>, attrs: Seq<u8>, signature: Seq<u8>, ts: Option<Seq<u8>>) -> bool {
    &&& cert.len() <= CMS_PART_LIMIT
    &&& attrs.len() <= CMS_PART_LIMIT
    &&& signature.len() <= CMS_PART_LIMIT
    &&& (ts matches Some(t) ==> t.len() <= CMS_PART_LIMIT)
}

/// The CMS blob for a certificate, the DER SignedAttributes, a signature and
/// an optional timestamp token; `None` when the certificate does not parse,
/// the attributes are not one SET element, or a part is over the limit.
pub open spec fn cms_for(cert: Seq<u8>, attrs: Seq<u8>, signature: Seq<u8>, ts: Option<Seq<u8>>) -> Option<Seq<u8>> {
    if !parts_fit(cert, attrs, signature, ts) {
        None
    } else {
        match (x509_names(cert), parse_tlv(attrs)) {
            (Some((issuer, _subject, serial)), Some((tag, content, rest))) => {
                if tag == 0x31 && rest.len() == 0 && issuer.len() <= CMS_PART_LIMIT && serial.len()
                    <= CMS_PART_LIMIT {
                    Some(
                        content_info(
                            signed_data(
                                cert,
                                signer_info(issuer_and_serial(issuer, serial), content, signature, ts),
                            ),
                        ),
                    )
                } else {
                    None
                }
            },
            _ => None,
        }
    }
}

/// Re-parsing the signed attributes the builder emits gives back the same
/// tree: one SET whose content is the content-type attribute, split into
/// its type and value set, followed by the other two attributes.
pub proof fn lemma_reparse_signed_attributes(digest: Seq<u8>, t: CivilTime)
    requires
        digest.len() <= CMS_PART_LIMIT,
    ensures
        parse_tlv(signed_attributes(digest, t)) == Some((0x31u8, signed_attributes_content(digest, t), Seq::<u8>::empty())),
        parse_tlv(signed_attributes_content(digest, t)) == Some((
            0x30u8,
            tlv(0x06, content_type_oid()) + tlv(0x31, tlv(0x06, data_oid())),
            attribute(message_digest_oid(), tlv(0x04, digest)) + attribute(signing_time_oid(), tlv(0x17, utc_time_text(t))),
        )),
{
    let a0 = attribute(content_type_oid(), tlv(0x06, data_oid()));
    let a1 = attribute(message_digest_oid(), tlv(0x04, digest));
    let a2 = attribute(signing_time_oid(), tlv(0x17, utc_time_text(t)));
    lemma_tlv_len(0x04, digest);
    lemma_tlv_len(0x06, message_digest_oid());
    lemma_tlv_len(0x31, tlv(0x04, digest));
    lemma_tlv_len(0x30, tlv(0x06, message_digest_oid()) + tlv(0x31, tlv(0x04, digest)));
    assert(a0.len() < 64);
    assert(a2.len() < 64);
    let c = signed_attributes_content(digest, t);
    lemma_tlv_round_trip(0x31, c, Seq::empty());
    assert(signed_attributes(digest, t) + Seq::<u8>::empty() =~= signed_attributes(digest, t));
    lemma_tlv_round_trip(0x30, tlv(0x06, content_type_oid()) + tlv(0x31, tlv(0x06, data_oid())), a1 + a2);
    assert(c =~= a0 + (a1 + a2));
}

/// A SignerInfo the builder emits re-parses into its content, whose last
/// fields are the signature OCTET STRING followed by the `[1]` unsigned
/// attributes when there is a timestamp, and by nothing otherwise.
pub proof fn lemma_reparse_signer_info(sid: Seq<u8>, attrs_content: Seq<u8>, signature: Seq<u8>, ts: Option<Seq<u8>>)
    requires
        sid.len() <= 3 * CMS_PART_LIMIT,
        attrs_content.len() <= CMS_PART_LIMIT,
        signature.len() <= CMS_PART_LIMIT,
        ts matches Some(t) ==> t.len() <= CMS_PART_LIMIT,
    ensures
        ({
            let tail = match ts {
                Some(tok) => unsigned_attributes(tok),
                None => Seq::<u8>::empty(),
            };
            let head = seq![0x02u8, 0x01, 0x01] + sid + sha256_algorithm_identifier() + tlv(0xA0, attrs_content)
                + rsa_sha256_algorithm();
            &&& parse_tlv(signer_info(sid, attrs_content, signature, ts)) == Some((0x30u8, head + (tlv(0x04, signature) + tail), Seq::<u8>::empty()))
            &&& parse_tlv(tlv(0x04, signature) + tail) == Some((0x04u8, signature, tail))
            &&& (ts is None ==> tail.len() == 0)
        }),
{
    let tail = match ts {
        Some(tok) => unsigned_attributes(tok),
        None => Seq::<u8>::empty(),
    };
    let head = seq![0x02u8, 0x01, 0x01] + sid + sha256_algorithm_identifier() + tlv(0xA0, attrs_content)
        + rsa_sha256_algorithm();
    lemma_tlv_len(0xA0, attrs_content);
    lemma_tlv_len(0x04, signature);
    if ts is Some {
        let tok = ts->Some_0;
        lemma_tlv_len(0x06, timestamp_token_oid());
        lemma_tlv_len(0x31, tok);
        lemma_tlv_len(0x30, tlv(0x06, timestamp_token_oid()) + tlv(0x31, tok));
        lemma_tlv_len(0xA1, attribute(timestamp_token_oid(), tok));
    }
    assert(sha256_algorithm_identifier().len() < 20);
    assert(rsa_sha256_algorithm().len() < 20);
    let content = head + (tlv(0x04, signature) + tail);
    assert(content =~= seq![0x02u8, 0x01, 0x01] + sid + sha256_algorithm_identifier() + tlv(0xA0, attrs_content)
        + rsa_sha256_algorithm() + tlv(0x04, signature) + tail);
    lemma_tlv_round_trip(0x30, content, Seq::empty());
    assert(tlv(0x30, content) + Seq::<u8>::empty() =~= tlv(0x30, content));
    lemma_tlv_round_trip(0x04, signature, tail);
}

/// A blob of `cms_for` re-parses into the ContentInfo's two fields, the
/// second being the `[0]` wrapper of the SignedData, which re-parses into
/// its own fields.
#[verifier::rlimit(80)]
pub proof fn lemma_reparse_content_info(cert: Seq<u8>, attrs: Seq<u8>, signature: Seq<u8>, ts: Option<Seq<u8>>)
    requires
        cms_for(cert, attrs, signature, ts) is Some,
    ensures
        ({
            let (issuer, _s, serial) = x509_names(cert)->Some_0;
            let content = parse_tlv(attrs)->Some_0.1;
            let si = signer_info(issuer_and_serial(issuer, serial), content, signature, ts);
            let sd = signed_data(cert, si);
            &&& parse_tlv(cms_for(cert, attrs, signature, ts)->Some_0) == Some((0x30u8, tlv(0x06, signed_data_oid()) + tlv(0xA0, sd), Seq::<u8>::empty()))
            &&& parse_tlv(tlv(0x06, signed_data_oid()) + tlv(0xA0, sd)) == Some((0x06u8, signed_data_oid(), tlv(0xA0, sd)))
            &&& parse_tlv(tlv(0xA0, sd)) == Some((0xA0u8, sd, Seq::<u8>::empty()))
            &&& parse_tlv(sd)->Some_0.0 == 0x30
        }),
{
    let (issuer, _s, serial) = x509_names(cert)->Some_0;
    let content = parse_tlv(attrs)->Some_0.1;
    assert(content.len() <= attrs.len());
    lemma_tlv_len(0x02, serial);
    lemma_tlv_len(0x30, issuer + tlv(0x02, serial));
    let sid = issuer_and_serial(issuer, serial);
    lemma_tlv_len(0xA0, content);
    lemma_tlv_len(0x04, signature);
    let tail = match ts {
        Some(tok) => unsigned_attributes(tok),
        None => Seq::<u8>::empty(),
    };
    if ts is Some {
        let tok = ts->Some_0;
        lemma_tlv_len(0x06, timestamp_token_oid());
        lemma_tlv_len(0x31, tok);
        lemma_tlv_len(0x30, tlv(0x06, timestamp_token_oid()) + tlv(0x31, tok));
        lemma_tlv_len(0xA1, attribute(timestamp_token_oid(), tok));
    }
    assert(sha256_algorithm_identifier().len() < 20);
    assert(rsa_sha256_algorithm().len() < 20);
    let si_content = seq![0x02u8, 0x01, 0x01] + sid + sha256_algorithm_identifier() + tlv(0xA0, content)
        + rsa_sha256_algorithm() + tlv(0x04, signature) + tail;
    lemma_tlv_len(0x30, si_content);
    let si = signer_info(sid, content, signature, ts);
    lemma_tlv_len(0xA0, cert);
    lemma_tlv_len(0x31, si);
    let sd_content = seq![0x02u8, 0x01, 0x03] + tlv(0x31, sha256_algorithm_identifier()) + tlv(0x30, tlv(0x06, data_oid()))
        + tlv(0xA0, cert) + tlv(0x31, si);
    lemma_tlv_len(0x30, sd_content);
    let sd = signed_data(cert, si);
    lemma_tlv_len(0xA0, sd);
    let ci_content = tlv(0x06, signed_data_oid()) + tlv(0xA0, sd);
    lemma_tlv_round_trip(0x30, ci_content, Seq::empty());
    assert(tlv(0x30, ci_content) + Seq::<u8>::empty() =~= tlv(0x30, ci_content));
    lemma_tlv_round_trip(0x06, signed_data_oid(), tlv(0xA0, sd));
    lemma_tlv_round_trip(0xA0, sd, Seq::empty());
    assert(tlv(0xA0, sd) + Seq::<u8>::empty() =~= tlv(0xA0, sd));
    lemma_tlv_round_trip(0x30, sd_content, Seq::empty());
    assert(sd + Seq::<u8>::empty() =~= sd);
}

proof fn lemma_tlv_len(tag: u8, c: Seq<u8>)
    requires
        c.len() < MAX_DER_LEN,
    ensures
        tlv(tag, c).len() <= c.len() + 5,
        tlv(tag, c).len() >= c.len() + 2,
{
}

/// Builds the encoded content octets of a fixed object identifier.
fn oid_vec(which: u8) -> (r: Vec<u8>)
    requires
        which < 7,
    ensures
        which == 0 ==> r@ == content_type_oid(),
        which == 1 ==> r@ == data_oid(),
        which == 2 ==> r@ == message_digest_oid(),
        which == 3 ==> r@ == signing_time_oid(),
        which == 4 ==> r@ == rsa_sha256_oid(),
        which == 5 ==> r@ == signed_data_oid(),
        which == 6 ==> r@ == timestamp_token_oid(),
{
    let r: Vec<u8> = if which == 0 {
        vec![0x2A, 0x86, 0x48, 0x86, 0xF7, 0x0D, 0x01, 0x09, 0x03]
    } else if which == 1 {
        vec![0x2A, 0x86, 0x48, 0x86, 0xF7, 0x0D, 0x01, 0x07, 0x01]
    } else if which == 2 {
        vec![0x2A, 0x86, 0x48, 0x86, 0xF7, 0x0D, 0x01, 0x09, 0x04]
    } else if which == 3 {
        vec![0x2A, 0x86, 0x48, 0x86, 0xF7, 0x0D, 0x01, 0x09, 0x05]
    } else if which == 4 {
        vec![0x2A, 0x86, 0x48, 0x86, 0xF7, 0x0D, 0x01, 0x01, 0x0B]
    } else if which == 5 {
        vec![0x2A, 0x86, 0x48, 0x86, 0xF7, 0x0D, 0x01, 0x07, 0x02]
    } else {
        vec![0x2A, 0x86, 0x48, 0x86, 0xF7, 0x0D, 0x01, 0x09, 0x10, 0x02, 0x0E]
    };
    assert(which == 0 ==> r@ =~= content_type_oid());
    assert(which == 1 ==> r@ =~= data_oid());
    assert(which == 2 ==> r@ =~= message_digest_oid());
    assert(which == 3 ==> r@ =~= signing_time_oid());
    assert(which == 4 ==> r@ =~= rsa_sha256_oid());
    assert(which == 5 ==> r@ =~= signed_data_oid());
    assert(which == 6 ==> r@ =~= timestamp_token_oid());
    r
}

/// ASN.1 UTCTime of `t`.
pub fn build_utc_time(t: &CivilTime) -> (r: Vec<u8>)
    requires
        t.wf(),
    ensures
        r@ == tlv(0x17, utc_time_text(*t)),
{
    let text = utc_time_bytes(t);
    build_tlv(0x17, text.as_slice())
}

/// The DER SignedAttributes over a document digest and a signing time.
pub fn build_signed_attributes(document_digest: &[u8], t: &CivilTime) -> (r: Vec<u8>)
    requires
        document_digest@.len() <= CMS_PART_LIMIT,
        t.wf(),
    ensures
        r@ == signed_attributes(document_digest@, *t),
{
    let data_id = build_oid(oid_vec(1).as_slice());
    let mut attrs = build_attribute(oid_vec(0).as_slice(), data_id.as_slice());
    let md = build_octet_string(document_digest);
    proof {
        lemma_tlv_len(0x04, document_digest@);
    }
    let md_attr = build_attribute(oid_vec(2).as_slice(), md.as_slice());
    append_bytes(&mut attrs, md_attr.as_slice());
    let time = build_utc_time(t);
    let st_attr = build_attribute(oid_vec(3).as_slice(), time.as_slice());
    append_bytes(&mut attrs, st_attr.as_slice());
    proof {
        let a0 = attribute(content_type_oid(), tlv(0x06, data_oid()));
        let a1 = attribute(message_digest_oid(), tlv(0x04, document_digest@));
        let a2 = attribute(signing_time_oid(), tlv(0x17, utc_time_text(*t)));
        lemma_tlv_len(0x06, message_digest_oid());
        lemma_tlv_len(0x31, tlv(0x04, document_digest@));
        lemma_tlv_len(0x30, tlv(0x06, message_digest_oid()) + tlv(0x31, tlv(0x04, document_digest@)));
        assert(a0.len() < 64);
        assert(a2.len() < 64);
        assert(attrs@ == a0 + a1 + a2);
    }
    build_set(attrs.as_slice())
}

/// IssuerAndSerialNumber of a certificate.
pub fn build_issuer_and_serial(issuer: &[u8], serial: &[u8]) -> (r: Vec<u8>)
    requires
        issuer@.len() <= CMS_PART_LIMIT,
        serial@.len() <= CMS_PART_LIMIT,
    ensures
        r@ == issuer_and_serial(issuer@, serial@),
{
    let mut content = bytes_of(issuer);
    let serial_int = build_tlv(0x02, serial);
    proof {
        lemma_tlv_len(0x02, serial@);
    }
    append_bytes(&mut content, serial_int.as_slice());
    build_sequence(content.as_slice())
}

/// IssuerAndSerialNumber read from a DER certificate.
pub fn extract_issuer_and_serial(cert_der: &[u8]) -> (r: Result<Vec<u8>, ESignError>)
    ensures
        match r {
            Ok(v) => x509_names(cert_der@) matches Some((i, _s, n)) && i.len() <= CMS_PART_LIMIT
                && n.len() <= CMS_PART_LIMIT && v@ == issuer_and_serial(i, n),
            Err(e) => e is Pdf && !(x509_names(cert_der@) matches Some((i, _s, n)) && i.len()
                <= CMS_PART_LIMIT && n.len() <= CMS_PART_LIMIT),
        },
{
    match cert_names(cert_der) {
        Some(names) => {
            if names.issuer.len() > CMS_PART_LIMIT || names.serial.len() > CMS_PART_LIMIT {
                Err(ESignError::Pdf(String::from_str("Certificate issuer or serial too large")))
            } else {
                Ok(build_issuer_and_serial(names.issuer.as_slice(), names.serial.as_slice()))
            }
        },
        None => Err(ESignError::Pdf(String::from_str("Failed to parse certificate"))),
    }
}

/// AlgorithmIdentifier { sha256WithRSAEncryption, NULL }.
fn build_rsa_sha256_algorithm() -> (r: Vec<u8>)
    ensures
        r@ == rsa_sha256_algorithm(),
{
    let mut content = build_oid(oid_vec(4).as_slice());
    content.push(0x05);
    content.push(0x00);
    assert(content@ =~= tlv(0x06, rsa_sha256_oid()) + seq![0x05u8, 0x00]);
    build_sequence(content.as_slice())
}

/// The `[1] IMPLICIT` unsigned attributes holding a timestamp token.
pub fn build_unsigned_attributes(token: &[u8]) -> (r: Vec<u8>)
    requires
        token@.len() <= CMS_PART_LIMIT,
    ensures
        r@ == unsigned_attributes(token@),
{
    let attr = build_attribute(oid_vec(6).as_slice(), token);
    proof {
        lemma_tlv_len(0x06, timestamp_token_oid());
        lemma_tlv_len(0x31, token@);
        lemma_tlv_len(0x30, tlv(0x06, timestamp_token_oid()) + tlv(0x31, token@));
    }
    build_tlv(0xA1, attr.as_slice())
}

/// SignerInfo over the content of the signed attributes, with the
/// timestamp token as an unsigned attribute when there is one.
pub fn build_signer_info(sid: &[u8], attrs_content: &[u8], signature: &[u8], timestamp: Option<&[u8]>) -> (r: Vec<u8>)
    requires
        sid@.len() <= 3 * CMS_PART_LIMIT,
        attrs_content@.len() <= CMS_PART_LIMIT,
        signature@.len() <= CMS_PART_LIMIT,
        timestamp matches Some(t) ==> t@.len() <= CMS_PART_LIMIT,
    ensures
        r@ == signer_info(sid@, attrs_content@, signature@, opt_bytes(timestamp)),
        r@.len() <= sid@.len() + attrs_content@.len() + signature@.len() + (match timestamp {
            Some(t) => t@.len() as int,
            None => 0,
        }) + 100,
{
    let mut si: Vec<u8> = vec![0x02, 0x01, 0x01];
    append_bytes(&mut si, sid);
    let alg = build_sha256_algorithm_identifier();
    append_bytes(&mut si, alg.as_slice());
    let attrs = build_tlv(0xA0, attrs_content);
    append_bytes(&mut si, attrs.as_slice());
    let rsa = build_rsa_sha256_algorithm();
    append_bytes(&mut si, rsa.as_slice());
    let sig = build_octet_string(signature);
    append_bytes(&mut si, sig.as_slice());
    proof {
        lemma_tlv_len(0xA0, attrs_content@);
        lemma_tlv_len(0x04, signature@);
        assert(sha256_algorithm_identifier().len() < 20);
        assert(rsa_sha256_algorithm().len() < 20);
    }
    match timestamp {
        Some(tok) => {
            let ua = build_unsigned_attributes(tok);
            proof {
                lemma_tlv_len(0x06, timestamp_token_oid());
                lemma_tlv_len(0x31, tok@);
                lemma_tlv_len(0x30, tlv(0x06, timestamp_token_oid()) + tlv(0x31, tok@));
                lemma_tlv_len(0xA1, attribute(timestamp_token_oid(), tok@));
            }
            append_bytes(&mut si, ua.as_slice());
        },
        None => {},
    }
    proof {
        let tail = match opt_bytes(timestamp) {
            Some(tok) => unsigned_attributes(tok),
            None => Seq::empty(),
        };
        assert(si@ =~= seq![0x02u8, 0x01, 0x01] + sid@ + sha256_algorithm_identifier() + tlv(
            0xA0,
            attrs_content@,
        ) + rsa_sha256_algorithm() + tlv(0x04, signature@) + tail);
        lemma_tlv_len(0x30, si@);
    }
    build_sequence(si.as_slice())
}

/// The SignedData and its ContentInfo around one certificate and one
/// SignerInfo.
fn build_content_info(cert_der: &[u8], signer: &[u8]) -> (r: Vec<u8>)
    requires
        cert_der@.len() <= CMS_PART_LIMIT,
        signer@.len() <= 8 * CMS_PART_LIMIT,
    ensures
        r@ == content_info(signed_data(cert_der@, signer@)),
{
    let mut content: Vec<u8> = vec![0x02, 0x01, 0x03];
    let alg = build_sha256_algorithm_identifier();
    let algs = build_set(alg.as_slice());
    append_bytes(&mut content, algs.as_slice());
    let data_id = build_oid(oid_vec(1).as_slice());
    let encap = build_sequence(data_id.as_slice());
    append_bytes(&mut content, encap.as_slice());
    let certs = build_tlv(0xA0, cert_der);
    append_bytes(&mut content, certs.as_slice());
    let signers = build_set(signer);
    append_bytes(&mut content, signers.as_slice());
    proof {
        lemma_tlv_len(0xA0, cert_der@);
        lemma_tlv_len(0x31, signer@);
        assert(sha256_algorithm_identifier().len() < 20);
        assert(content@ =~= seq![0x02u8, 0x01, 0x03] + tlv(0x31, sha256_algorithm_identifier())
            + tlv(0x30, tlv(0x06, data_oid())) + tlv(0xA0, cert_der@) + tlv(0x31, signer@));
        lemma_tlv_len(0x30, content@);
    }
    let sd = build_sequence(content.as_slice());
    let mut ci = build_oid(oid_vec(5).as_slice());
    let explicit = build_tlv(0xA0, sd.as_slice());
    proof {
        lemma_tlv_len(0xA0, sd@);
    }
    append_bytes(&mut ci, explicit.as_slice());
    build_sequence(ci.as_slice())
}

/// Assembles the detached CMS SignedData ContentInfo from a DER certificate,
/// the DER SignedAttributes that were signed, the signature, and an optional
/// RFC 3161 timestamp token.
pub fn build_cms_structure(cert_der: &[u8], signed_attrs: &[u8], signature: &[u8], timestamp: Option<&[u8]>) -> (r: Result<Vec<u8>, ESignError>)
    ensures
        match r {
            Ok(v) => cms_for(cert_der@, signed_attrs@, signature@, opt_bytes(timestamp)) == Some(v@),
            Err(e) => e is Pdf && cms_for(cert_der@, signed_attrs@, signature@, opt_bytes(timestamp)) is None,
        },
{
    let too_big = match timestamp {
        Some(t) => t.len() > CMS_PART_LIMIT,
        None => false,
    };
    if cert_der.len() > CMS_PART_LIMIT || signed_attrs.len() > CMS_PART_LIMIT || signature.len()
        > CMS_PART_LIMIT || too_big {
        return Err(ESignError::Pdf(String::from_str("Signature input too large")));
    }
    let sid = match extract_issuer_and_serial(cert_der) {
        Ok(s) => s,
        Err(e) => {
            return Err(e);
        },
    };
    if signed_attrs.len() < 2 || signed_attrs[0] != 0x31 {
        return Err(ESignError::Pdf(String::from_str("Malformed signed attributes")));
    }
    let rest = vstd::slice::slice_subrange(signed_attrs, 1, signed_attrs.len());
    assert(rest@ == signed_attrs@.drop_first());
    let (h, n) = match parse_asn1_length(rest) {
        Ok(hn) => hn,
        Err(_) => {
            return Err(ESignError::Pdf(String::from_str("Malformed signed attributes")));
        },
    };
    if h >= signed_attrs.len() || n != signed_attrs.len() - 1 - h {
        return Err(ESignError::Pdf(String::from_str("Malformed signed attributes")));
    }
    let content = vstd::slice::slice_subrange(signed_attrs, 1 + h, signed_attrs.len());
    proof {
        let (i, _s, sn) = x509_names(cert_der@)->Some_0;
        lemma_tlv_len(0x02, sn);
        lemma_tlv_len(0x30, i + tlv(0x02, sn));
    }
    let signer = build_signer_info(sid.as_slice(), content, signature, timestamp);
    Ok(build_content_info(cert_der, signer.as_slice()))
}

} // verus!
