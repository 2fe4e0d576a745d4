//! What the library reads out of X.509 certificates, through x509-parser.
use vstd::prelude::*;
use x509_parser::prelude::{FromDer, X509Certificate, X509Name};

verus! {

/// The raw DER of a certificate's issuer name, subject name and serial
/// number content, as x509-parser reads them.
pub uninterp spec fn x509_names(der: Seq<u8>) -> Option<(Seq<u8>, Seq<u8>, Seq<u8>)>;

/// Raw pieces of a certificate that the CMS builder and the chain builder use.
pub struct CertNames {
    /// DER of the issuer Name, tag and length included.
    pub issuer: Vec<u8>,
    /// DER of the subject Name, tag and length included.
    pub subject: Vec<u8>,
    /// Content octets of the serial number INTEGER.
    pub serial: Vec<u8>,
}

/// Relies on `X509Certificate::from_der` with `X509Name::as_raw` and
/// `raw_serial`: the issuer and subject names' DER and the serial's bytes,
/// `None` when the certificate does not parse.
#[verifier::external_body]
pub(crate) fn cert_names(der: &[u8]) -> (r: Option<CertNames>)
    ensures
        match r {
            Some(n) => x509_names(der@) == Some((n.issuer@, n.subject@, n.serial@)),
            None => x509_names(der@) is None,
        },
{
    match X509Certificate::from_der(der) {
        Ok((_, c)) => Some(CertNames {
            issuer: c.tbs_certificate.issuer.as_raw().to_vec(),
            subject: c.tbs_certificate.subject.as_raw().to_vec(),
            serial: c.tbs_certificate.raw_serial().to_vec(),
        }),
        Err(_) => None,
    }
}

/// A certificate's serial in decimal and its validity bounds as Unix times.
pub uninterp spec fn x509_details(der: Seq<u8>) -> Option<(Seq<char>, int, int)>;

/// Serial and validity of a certificate.
pub struct CertDetails {
    /// The serial number in decimal.
    pub serial: String,
    /// Start of validity, Unix time.
    pub not_before: i64,
    /// End of validity, Unix time.
    pub not_after: i64,
}

/// Relies on `X509Certificate::from_der` with the `serial` field's
/// `to_string` and the validity's `timestamp`.
#[verifier::external_body]
pub(crate) fn cert_details(der: &[u8]) -> (r: Option<CertDetails>)
    ensures
        match r {
            Some(d) => x509_details(der@) == Some((d.serial@, d.not_before as int, d.not_after as int)),
            None => x509_details(der@) is None,
        },
{
    match X509Certificate::from_der(der) {
        Ok((_, c)) => Some(CertDetails {
            serial: c.serial.to_string(),
            not_before: c.validity().not_before.timestamp(),
            not_after: c.validity().not_after.timestamp(),
        }),
        Err(_) => None,
    }
}

/// One attribute of a distinguished name: its type as a dotted OID, the
/// tag number of its value and the value's content octets.
pub struct NameAttribute {
    pub oid: String,
    pub tag: u32,
    pub value: Vec<u8>,
}

/// The attributes of a DER-encoded Name, in order, as (dotted OID, tag,
/// content octets).
pub uninterp spec fn x509_name_attributes(name_der: Seq<u8>) -> Option<Seq<(Seq<char>, u32, Seq<u8>)>>;

/// The view of a list of attributes.
pub open spec fn attributes_view(v: Seq<NameAttribute>) -> Seq<(Seq<char>, u32, Seq<u8>)> {
    v.map_values(|a: NameAttribute| (a.oid@, a.tag, a.value@))
}

/// Relies on `X509Name::from_der` and `iter_attributes`: each attribute's
/// type (`to_id_string`), its value's tag and content (`as_bytes`).
#[verifier::external_body]
pub(crate) fn name_attributes(name_der: &[u8]) -> (r: Option<Vec<NameAttribute>>)
    ensures
        match r {
            Some(v) => x509_name_attributes(name_der@) == Some(attributes_view(v@)),
            None => x509_name_attributes(name_der@) is None,
        },
{
    match X509Name::from_der(name_der) {
        Ok((_, n)) => Some(n.iter_attributes().map(|a| NameAttribute {
            oid: a.attr_type().to_id_string(),
            tag: a.attr_value().tag().0,
            value: a.attr_value().as_bytes().to_vec(),
        }).collect()),
        Err(_) => None,
    }
}

} // verus!
