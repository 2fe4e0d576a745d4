//! Primitive DER builders (tag, length, content) and the length-header parser.
use vstd::prelude::*;
use vstd::string::StringExecFns;
use crate::error::ESignError;

verus! {

/// Largest content length this encoder emits (three length octets).
pub const MAX_DER_LEN: usize = 0x100_0000;

/// The DER length octets of a content of `n` bytes, `n < 2^24`.
pub open spec fn der_length(n: nat) -> Seq<u8> {
    if n < 128 {
        seq![n as u8]
    } else if n < 256 {
        seq![0x81u8, n as u8]
    } else if n < 65536 {
        seq![0x82u8, (n / 256) as u8, (n % 256) as u8]
    } else {
        seq![0x83u8, (n / 65536) as u8, ((n / 256) % 256) as u8, (n % 256) as u8]
    }
}

/// A complete tag-length-value element.
pub open spec fn tlv(tag: u8, content: Seq<u8>) -> Seq<u8> {
    seq![tag] + der_length(content.len()) + content
}

/// Big-endian value of a sequence of octets.
pub open spec fn be_value(s: Seq<u8>) -> nat
    decreases s.len(),
{
    if s.len() == 0 {
        0
    } else {
        be_value(s.drop_last()) * 256 + s.last() as nat
    }
}

/// Reading of a length header at the start of `s`: the number of octets it
/// takes and the length it announces; `None` when it is empty or malformed
/// (long form with zero or more than four octets, or truncated).
pub open spec fn length_header(s: Seq<u8>) -> Option<(nat, nat)> {
    if s.len() == 0 {
        None
    } else if s[0] < 128 {
        Some((1, s[0] as nat))
    } else {
        let k = (s[0] - 128) as nat;
        if k == 0 || k > 4 || s.len() < 1 + k {
            None
        } else {
            Some((1 + k, be_value(s.subrange(1, 1 + k as int))))
        }
    }
}

/// Splitting one element off the front of `s`: its tag, its content and the
/// bytes after it.
pub open spec fn parse_tlv(s: Seq<u8>) -> Option<(u8, Seq<u8>, Seq<u8>)> {
    if s.len() == 0 {
        None
    } else {
        match length_header(s.drop_first()) {
            None => None,
            Some((h, n)) => if 1 + h + n <= s.len() {
                Some((s[0], s.subrange(1 + h as int, (1 + h + n) as int), s.subrange((1 + h + n) as int, s.len() as int)))
            } else {
                None
            },
        }
    }
}

/// Appends `data` to `buf`.
pub fn append_bytes(buf: &mut Vec<u8>, data: &[u8])
    ensures
        final(buf)@ == old(buf)@ + data@,
{
    let mut i: usize = 0;
    while i < data.len()
        invariant
            i <= data@.len(),
            buf@ == old(buf)@ + data@.subrange(0, i as int),
        decreases data@.len() - i,
    {
        buf.push(data[i]);
        i = i + 1;
        proof {
            assert(data@.subrange(0, i as int) == data@.subrange(0, i - 1) + seq![data@[i - 1]]);
        }
    }
    assert(data@.subrange(0, data@.len() as int) == data@);
}

/// Appends the DER length octets of `len` to `buf`.
pub fn extend_with_length(buf: &mut Vec<u8>, len: usize)
    requires
        len < MAX_DER_LEN,
    ensures
        final(buf)@ == old(buf)@ + der_length(len as nat),
{
    if len < 128 {
        buf.push(len as u8);
    } else if len < 256 {
        buf.push(0x81);
        buf.push(len as u8);
    } else if len < 65536 {
        buf.push(0x82);
        buf.push((len / 256) as u8);
        buf.push((len % 256) as u8);
    } else {
        buf.push(0x83);
        buf.push((len / 65536) as u8);
        buf.push(((len / 256) % 256) as u8);
        buf.push((len % 256) as u8);
    }
    assert(final(buf)@ =~= old(buf)@ + der_length(len as nat));
}

/// Encodes one element with the given tag around `content`.
pub fn build_tlv(tag: u8, content: &[u8]) -> (r: Vec<u8>)
    requires
        content@.len() < MAX_DER_LEN,
    ensures
        r@ == tlv(tag, content@),
{
    let mut result: Vec<u8> = Vec::new();
    result.push(tag);
    extend_with_length(&mut result, content.len());
    append_bytes(&mut result, content);
    assert(result@ =~= tlv(tag, content@));
    result
}

/// ASN.1 SEQUENCE around `content`.
pub fn build_sequence(content: &[u8]) -> (r: Vec<u8>)
    requires
        content@.len() < MAX_DER_LEN,
    ensures
        r@ == tlv(0x30, content@),
{
    build_tlv(0x30, content)
}

/// ASN.1 SET around `content`.
pub fn build_set(content: &[u8]) -> (r: Vec<u8>)
    requires
        content@.len() < MAX_DER_LEN,
    ensures
        r@ == tlv(0x31, content@),
{
    build_tlv(0x31, content)
}

/// ASN.1 OCTET STRING holding `data`.
pub fn build_octet_string(data: &[u8]) -> (r: Vec<u8>)
    requires
        data@.len() < MAX_DER_LEN,
    ensures
        r@ == tlv(0x04, data@),
{
    build_tlv(0x04, data)
}

/// ASN.1 OBJECT IDENTIFIER from its already encoded content octets.
pub fn build_oid(oid_bytes: &[u8]) -> (r: Vec<u8>)
    requires
        oid_bytes@.len() < 128,
    ensures
        r@ == tlv(0x06, oid_bytes@),
{
    build_tlv(0x06, oid_bytes)
}

/// The content of an Attribute: its type and a SET holding `value`.
pub open spec fn attribute(oid: Seq<u8>, value: Seq<u8>) -> Seq<u8> {
    tlv(0x30, tlv(0x06, oid) + tlv(0x31, value))
}

/// ASN.1 Attribute: SEQUENCE { OID, SET { value } }.
pub fn build_attribute(oid: &[u8], value: &[u8]) -> (r: Vec<u8>)
    requires
        oid@.len() < 128,
        value@.len() <= 0x80_0000,
    ensures
        r@ == attribute(oid@, value@),
{
    let mut content: Vec<u8> = build_oid(oid);
    let set = build_set(value);
    append_bytes(&mut content, set.as_slice());
    assert(content@.len() <= value@.len() + 140);
    build_sequence(content.as_slice())
}

/// Encoded content of the sha256 object identifier, 2.16.840.1.101.3.4.2.1.
pub open spec fn sha256_oid() -> Seq<u8> {
    seq![0x60u8, 0x86, 0x48, 0x01, 0x65, 0x03, 0x04, 0x02, 0x01]
}

/// Fills a fresh vector with the bytes of `s`.
pub fn bytes_of(s: &[u8]) -> (r: Vec<u8>)
    ensures
        r@ == s@,
{
    let mut r: Vec<u8> = Vec::new();
    append_bytes(&mut r, s);
    r
}

/// AlgorithmIdentifier { sha256, NULL }.
pub open spec fn sha256_algorithm_identifier() -> Seq<u8> {
    tlv(0x30, tlv(0x06, sha256_oid()) + seq![0x05u8, 0x00])
}

/// Builds AlgorithmIdentifier { sha256, NULL }.
pub fn build_sha256_algorithm_identifier() -> (r: Vec<u8>)
    ensures
        r@ == sha256_algorithm_identifier(),
{
    let oid: [u8; 9] = [0x60, 0x86, 0x48, 0x01, 0x65, 0x03, 0x04, 0x02, 0x01];
    assert(oid@ =~= sha256_oid());
    let mut content = build_oid(&oid);
    content.push(0x05);
    content.push(0x00);
    assert(content@ =~= tlv(0x06, sha256_oid()) + seq![0x05u8, 0x00]);
    build_sequence(content.as_slice())
}

/// Number of octets of the length header at the start of `data`: zero when
/// `data` is empty, one for the short form, and one plus the count given in
/// the low seven bits for the long form.
pub fn get_length_bytes(data: &[u8]) -> (r: usize)
    ensures
        data@.len() == 0 ==> r == 0,
        data@.len() > 0 && data@[0] < 128 ==> r == 1,
        data@.len() > 0 && data@[0] >= 128 ==> r == 1 + (data@[0] - 128),
{
    if data.len() == 0 {
        0
    } else if data[0] < 128 {
        1
    } else {
        1 + (data[0] - 128) as usize
    }
}

/// Reads the length header at the start of `data`: the number of octets it
/// takes and the length it announces. An empty input, a long form of zero
/// or more than four octets, and a truncated one are errors.
pub fn parse_asn1_length(data: &[u8]) -> (r: Result<(usize, usize), ESignError>)
    ensures
        match r {
            Ok((h, n)) => length_header(data@) == Some((h as nat, n as nat)),
            Err(e) => e is Tsa && length_header(data@) is None,
        },
{
    if data.len() == 0 {
        return Err(ESignError::Tsa(String::from_str("Unexpected end of data")));
    }
    if data[0] < 128 {
        return Ok((1, data[0] as usize));
    }
    let num_bytes = (data[0] - 128) as usize;
    if num_bytes == 0 || num_bytes > 4 || data.len() < 1 + num_bytes {
        return Err(ESignError::Tsa(String::from_str("Invalid length encoding")));
    }
    let mut length: usize = 0;
    let mut i: usize = 0;
    while i < num_bytes
        invariant
            1 <= num_bytes <= 4,
            1 + num_bytes <= data@.len(),
            i <= num_bytes,
            length as nat == be_value(data@.subrange(1, 1 + i as int)),
            length < pow256(i as nat),
        decreases num_bytes - i,
    {
        proof {
            let s = data@.subrange(1, 1 + (i + 1) as int);
            assert(s.drop_last() =~= data@.subrange(1, 1 + i as int));
            lemma_pow256_bound(i as nat);
        }
        length = length * 256 + data[1 + i] as usize;
        i = i + 1;
    }
    Ok((1 + num_bytes, length))
}

/// 256 to the power `k`.
pub open spec fn pow256(k: nat) -> nat
    decreases k,
{
    if k == 0 {
        1
    } else {
        256 * pow256((k - 1) as nat)
    }
}

proof fn lemma_pow256_bound(k: nat)
    requires
        k < 4,
    ensures
        pow256(k) <= 0x100_0000,
        pow256(k + 1) == 256 * pow256(k),
{
    reveal_with_fuel(pow256, 4);
}

/// A length header read back gives the length that was written, with the
/// short form below 128 and one, two or three octets of long form above.
pub proof fn lemma_length_round_trip(n: nat, rest: Seq<u8>)
    requires
        n < MAX_DER_LEN,
    ensures
        length_header(der_length(n) + rest) == Some((der_length(n).len(), n)),
        der_length(n).len() == if n < 128 { 1nat } else if n < 256 { 2nat } else if n < 65536 { 3nat } else { 4nat },
{
    let s = der_length(n) + rest;
    reveal_with_fuel(be_value, 4);
    if n < 128 {
    } else if n < 256 {
        let b = s.subrange(1, 2);
        assert(b =~= seq![n as u8]);
        assert(b.drop_last() =~= Seq::<u8>::empty());
        assert((n as u8) as nat == n);
        assert(be_value(b) == n);
    } else if n < 65536 {
        let b = s.subrange(1, 3);
        let hi = n / 256;
        let lo = n % 256;
        assert(b =~= seq![hi as u8, lo as u8]);
        assert(b.drop_last() =~= seq![hi as u8]);
        assert(b.drop_last().drop_last() =~= Seq::<u8>::empty());
        assert((hi as u8) as nat == hi);
        assert((lo as u8) as nat == lo);
        assert(be_value(b.drop_last()) == hi);
        assert(be_value(b) == n);
    } else {
        let b = s.subrange(1, 4);
        let top = n / 65536;
        let mid = (n / 256) % 256;
        let lo = n % 256;
        assert(b =~= seq![top as u8, mid as u8, lo as u8]);
        assert(b.drop_last() =~= seq![top as u8, mid as u8]);
        assert(b.drop_last().drop_last() =~= seq![top as u8]);
        assert(b.drop_last().drop_last().drop_last() =~= Seq::<u8>::empty());
        assert((top as u8) as nat == top);
        assert((mid as u8) as nat == mid);
        assert((lo as u8) as nat == lo);
        assert(be_value(b.drop_last().drop_last()) == top);
        assert(be_value(b.drop_last()) == top * 256 + mid);
        assert(top * 256 + mid == n / 256) by (nonlinear_arith)
            requires top == n / 65536, mid == (n / 256) % 256;
        assert(be_value(b) == n);
    }
}

/// Any element this encoder writes parses back into the same tag and
/// content, leaving what followed it untouched.
pub proof fn lemma_tlv_round_trip(tag: u8, content: Seq<u8>, rest: Seq<u8>)
    requires
        content.len() < MAX_DER_LEN,
    ensures
        parse_tlv(tlv(tag, content) + rest) == Some((tag, content, rest)),
{
    let s = tlv(tag, content) + rest;
    let l = der_length(content.len());
    lemma_length_round_trip(content.len(), content + rest);
    assert(s.drop_first() =~= l + (content + rest));
    let h = l.len();
    assert(s.subrange(1 + h as int, (1 + h + content.len()) as int) =~= content);
    assert(s.subrange((1 + h + content.len()) as int, s.len() as int) =~= rest);
}

} // verus!
