//! SHA-256 and the hexadecimal renderings of byte strings.
use vstd::prelude::*;
use sha2::{Digest, Sha256};
use base64::Engine;

verus! {

/// The SHA-256 digest of a byte string.
pub uninterp spec fn sha256_of(data: Seq<u8>) -> Seq<u8>;

/// Relies on sha2's `Sha256`: feeding `a` then `b` to one hasher gives the
/// digest of their concatenation, 32 bytes long.
#[verifier::external_body]
pub(crate) fn sha256_of_parts(a: &[u8], b: &[u8]) -> (r: Vec<u8>)
    ensures
        r@ == sha256_of(a@ + b@),
        r@.len() == 32,
{
    let mut hasher = Sha256::new();
    hasher.update(a);
    hasher.update(b);
    hasher.finalize().to_vec()
}

/// SHA-256 of `data`.
pub fn sha256(data: &[u8]) -> (r: Vec<u8>)
    ensures
        r@ == sha256_of(data@),
        r@.len() == 32,
{
    let empty: [u8; 0] = [];
    let r = sha256_of_parts(data, &empty);
    assert(data@ + empty@ =~= data@);
    r
}

/// Standard base64 (RFC 4648, padded) of a byte string.
pub uninterp spec fn base64_of(data: Seq<u8>) -> Seq<char>;

/// Relies on base64's `STANDARD` engine `encode`: padded RFC 4648 base64;
/// empty input gives the empty string.
#[verifier::external_body]
pub(crate) fn base64_encode(data: &[u8]) -> (r: String)
    requires
        data@.len() < 0x1000_0000,
    ensures
        r@ == base64_of(data@),
        data@.len() == 0 ==> r@.len() == 0,
{
    base64::engine::general_purpose::STANDARD.encode(data)
}

/// Upper-case hexadecimal digit of a nibble.
pub open spec fn hex_digit_upper(n: nat) -> u8 {
    if n < 10 {
        (48 + n) as u8
    } else {
        (55 + n) as u8
    }
}

/// Lower-case hexadecimal digit of a nibble.
pub open spec fn hex_digit_lower(n: nat) -> u8 {
    if n < 10 {
        (48 + n) as u8
    } else {
        (87 + n) as u8
    }
}

/// Two hexadecimal digits per byte, high nibble first.
pub open spec fn hex_text(data: Seq<u8>, upper: bool) -> Seq<u8>
    decreases data.len(),
{
    if data.len() == 0 {
        Seq::empty()
    } else {
        let b = data[0] as nat;
        let pair = if upper {
            seq![hex_digit_upper(b / 16), hex_digit_upper(b % 16)]
        } else {
            seq![hex_digit_lower(b / 16), hex_digit_lower(b % 16)]
        };
        pair + hex_text(data.drop_first(), upper)
    }
}

/// An upper-case hexadecimal digit.
pub open spec fn is_upper_hex_digit(c: u8) -> bool {
    (48 <= c <= 57) || (65 <= c <= 70)
}

proof fn lemma_hex_text_split(data: Seq<u8>, i: int, upper: bool)
    requires
        0 <= i < data.len(),
    ensures
        hex_text(data.subrange(0, i + 1), upper) == hex_text(data.subrange(0, i), upper)
            + hex_text(seq![data[i]], upper),
    decreases i,
{
    let s = data.subrange(0, i + 1);
    if i == 0 {
        assert(s =~= seq![data[0]]);
        assert(data.subrange(0, 0) =~= Seq::<u8>::empty());
        assert(hex_text(Seq::<u8>::empty(), upper) == Seq::<u8>::empty());
        assert(hex_text(s, upper) =~= Seq::<u8>::empty() + hex_text(seq![data[i]], upper));
    } else {
        let t = data.drop_first();
        lemma_hex_text_split(t, i - 1, upper);
        assert(s.drop_first() =~= t.subrange(0, i));
        assert(data.subrange(0, i).drop_first() =~= t.subrange(0, i - 1));
        assert(hex_text(s, upper) =~= hex_text(data.subrange(0, i), upper) + hex_text(
            seq![data[i]],
            upper,
        ));
    }
}

/// Every digit of an upper-case rendering is in `0-9A-F`, two per byte.
pub proof fn lemma_hex_text_upper(data: Seq<u8>)
    ensures
        hex_text(data, true).len() == 2 * data.len(),
        forall|k: int| 0 <= k < hex_text(data, true).len() ==> is_upper_hex_digit(#[trigger] hex_text(data, true)[k]),
    decreases data.len(),
{
    if data.len() > 0 {
        lemma_hex_text_upper(data.drop_first());
    }
}

/// Hexadecimal rendering of `data`, two digits per byte.
pub fn hex_encode(data: &[u8], upper: bool) -> (r: Vec<u8>)
    requires
        data@.len() < 0x4000_0000,
    ensures
        r@ == hex_text(data@, upper),
        r@.len() == 2 * data@.len(),
{
    let mut r: Vec<u8> = Vec::new();
    let mut i: usize = 0;
    while i < data.len()
        invariant
            i <= data@.len() < 0x4000_0000,
            r@ == hex_text(data@.subrange(0, i as int), upper),
            r@.len() == 2 * i,
        decreases data@.len() - i,
    {
        let b = data[i];
        let hi = b / 16;
        let lo = b % 16;
        let (ch, cl) = if upper {
            (if hi < 10 { 48 + hi } else { 55 + hi }, if lo < 10 { 48 + lo } else { 55 + lo })
        } else {
            (if hi < 10 { 48 + hi } else { 87 + hi }, if lo < 10 { 48 + lo } else { 87 + lo })
        };
        r.push(ch);
        r.push(cl);
        proof {
            lemma_hex_text_split(data@, i as int, upper);
            let one = seq![b];
            assert(one.drop_first() =~= Seq::<u8>::empty());
            assert(hex_text(Seq::<u8>::empty(), upper) == Seq::<u8>::empty());
        }
        i = i + 1;
        proof {
            assert(r@ =~= hex_text(data@.subrange(0, i as int), upper));
        }
    }
    assert(data@.subrange(0, data@.len() as int) =~= data@);
    r
}

} // verus!
