//! Byte-level work on a serialized PDF that holds a signature placeholder:
//! locating the `/Contents` window, writing the `/ByteRange`, hashing the
//! covered spans and splicing the hex-encoded CMS blob.
use vstd::prelude::*;
use crate::bytes::{
    decimal, find_byte_from, is_first_byte_from, is_last_occurrence, occurs_at, push_decimal,
    rfind_bytes,
};
use crate::crypto::{hex_encode, hex_text, is_upper_hex_digit, lemma_hex_text_upper, sha256_of, sha256_of_parts};
use crate::error::{ESignError, SigningErrorCode};
use vstd::string::StringExecFns;

verus! {

/// Bytes reserved for the signature container.
pub const SIGNATURE_CONTAINER_SIZE: usize = 65536;

/// Hex characters of the `/Contents` window.
pub const HEX_WINDOW: usize = 131072;

/// The message of a CMS blob that does not fit the container.
pub const SIGNATURE_TOO_LARGE: &'static str = "Signature too large for the signature container (capacity 65536 bytes, 131072 hex characters)";

/// Furthest the signature container may start from the end of the file.
pub const SIGNATURE_MAX_DISTANCE_FROM_EOF: usize = 1000000;

/// `/Contents <`.
pub open spec fn contents_spaced() -> Seq<u8> {
    seq![0x2Fu8, 0x43, 0x6F, 0x6E, 0x74, 0x65, 0x6E, 0x74, 0x73, 0x20, 0x3C]
}

/// `/Contents<`.
pub open spec fn contents_tight() -> Seq<u8> {
    seq![0x2Fu8, 0x43, 0x6F, 0x6E, 0x74, 0x65, 0x6E, 0x74, 0x73, 0x3C]
}

/// `/ByteRange`.
pub open spec fn byte_range_key() -> Seq<u8> {
    seq![0x2Fu8, 0x42, 0x79, 0x74, 0x65, 0x52, 0x61, 0x6E, 0x67, 0x65]
}

/// A `/Contents <` or `/Contents<` key starts at `i`.
pub open spec fn contents_key_at(s: Seq<u8>, i: int) -> bool {
    occurs_at(s, contents_spaced(), i) || occurs_at(s, contents_tight(), i)
}

/// `m` is where the signature's `/Contents` key starts: the last key of
/// either spelling, `/Contents <` or `/Contents<`.
pub open spec fn contents_marker_at(s: Seq<u8>, m: int) -> bool {
    contents_key_at(s, m) && forall|j: int| m < j ==> !contents_key_at(s, j)
}

/// The `/Contents` key starts at `m`, close enough to the end of the file,
/// its hex string opens at `h` and closes at `e`.
pub open spec fn contents_window(s: Seq<u8>, m: int, h: int, e: int) -> bool {
    &&& contents_marker_at(s, m)
    &&& m + SIGNATURE_MAX_DISTANCE_FROM_EOF >= s.len()
    &&& is_first_byte_from(s, 0x3C, m, h)
    &&& is_first_byte_from(s, 0x3E, h, e)
}

/// `br` is the ByteRange of `s`: everything but the `/Contents` hex string
/// and its angle brackets.
pub open spec fn is_byte_range_of(s: Seq<u8>, br: Seq<usize>) -> bool {
    &&& br.len() == 4
    &&& exists|m: int| #[trigger] contents_marker_at(s, m) && contents_window(s, m, br[1] as int, br[2] - 1)
    &&& br[0] == 0
    &&& br[2] + br[3] == s.len()
}

/// The two spans a ByteRange covers, one after the other.
pub open spec fn covered(s: Seq<u8>, br: Seq<usize>) -> Seq<u8> {
    s.subrange(br[0] as int, br[0] + br[1]) + if br[2] + br[3] <= s.len() {
        s.subrange(br[2] as int, br[2] + br[3])
    } else {
        Seq::empty()
    }
}

/// Fills a fixed-size array from a literal's bytes.
fn marker_bytes(tight: bool) -> (r: Vec<u8>)
    ensures
        tight ==> r@ == contents_tight(),
        !tight ==> r@ == contents_spaced(),
{
    let r: Vec<u8> = if tight {
        vec![0x2F, 0x43, 0x6F, 0x6E, 0x74, 0x65, 0x6E, 0x74, 0x73, 0x3C]
    } else {
        vec![0x2F, 0x43, 0x6F, 0x6E, 0x74, 0x65, 0x6E, 0x74, 0x73, 0x20, 0x3C]
    };
    assert(tight ==> r@ =~= contents_tight());
    assert(!tight ==> r@ =~= contents_spaced());
    r
}

/// Locates the signature's `/Contents` hex string, searching from the end
/// of the file, and returns the ByteRange `[0, h, e + 1, len - (e + 1)]`
/// where `h` and `e` are the offsets of its `<` and `>`. Fails when there is
/// no `/Contents` string, when it starts more than
/// `SIGNATURE_MAX_DISTANCE_FROM_EOF` bytes before the end, or when it is not
/// closed.
pub fn calculate_byte_range(pdf_bytes: &[u8]) -> (r: Result<[usize; 4], ESignError>)
    ensures
        match r {
            Ok(br) => is_byte_range_of(pdf_bytes@, br@),
            Err(e) => e is Pdf && !exists|m: int, h: int, e: int| #[trigger]
                contents_window(pdf_bytes@, m, h, e),
        },
{
    let spaced = marker_bytes(false);
    let tight = marker_bytes(true);
    let start = match (rfind_bytes(pdf_bytes, spaced.as_slice()), rfind_bytes(pdf_bytes, tight.as_slice())) {
        (Some(a), Some(b)) => if a > b {
            a
        } else {
            b
        },
        (Some(a), None) => a,
        (None, Some(b)) => b,
        (None, None) => {
            return Err(ESignError::Pdf(String::from_str("Cannot find /Contents in PDF")));
        },
    };
    assert(contents_marker_at(pdf_bytes@, start as int));
    proof {
        assert forall|m: int| #[trigger] contents_marker_at(pdf_bytes@, m) implies m == start by {
            if m < start {
                assert(contents_key_at(pdf_bytes@, start as int));
            } else if m > start {
                assert(contents_key_at(pdf_bytes@, m));
            }
        }
    }
    let min_position: usize = if pdf_bytes.len() > SIGNATURE_MAX_DISTANCE_FROM_EOF {
        pdf_bytes.len() - SIGNATURE_MAX_DISTANCE_FROM_EOF
    } else {
        0
    };
    if start < min_position {
        return Err(
            ESignError::Pdf(
                String::from_str("Signature container at unexpected position; expected within 1000000 bytes of EOF"),
            ),
        );
    }
    let hex_start = match find_byte_from(pdf_bytes, 0x3C, start) {
        Some(p) => p,
        None => {
            return Err(ESignError::Pdf(String::from_str("Cannot find '<' after /Contents")));
        },
    };
    let hex_end = match find_byte_from(pdf_bytes, 0x3E, hex_start) {
        Some(p) => p,
        None => {
            proof {
                assert forall|m: int, h: int, e: int| #[trigger] contents_window(pdf_bytes@, m, h, e) implies false by {
                    assert(m == start);
                    assert(h == hex_start);
                }
            }
            return Err(ESignError::Pdf(String::from_str("Cannot find end of /Contents")));
        },
    };
    let br: [usize; 4] = [0, hex_start, hex_end + 1, pdf_bytes.len() - (hex_end + 1)];
    assert(contents_window(pdf_bytes@, start as int, hex_start as int, hex_end as int));
    Ok(br)
}

/// SHA-256 over the spans a ByteRange covers: `[b0, b0 + b1)` and, when it
/// lies inside the file, `[b2, b2 + b3)`.
pub fn compute_document_digest(pdf_bytes: &[u8], byte_range: &[usize; 4]) -> (r: Vec<u8>)
    requires
        byte_range@[0] + byte_range@[1] <= pdf_bytes@.len(),
    ensures
        r@ == sha256_of(covered(pdf_bytes@, byte_range@)),
        r@.len() == 32,
{
    let n = pdf_bytes.len();
    assert(byte_range[0] + byte_range[1] <= n);
    let first = vstd::slice::slice_subrange(pdf_bytes, byte_range[0], byte_range[0] + byte_range[1]);
    let second_start = byte_range[2];
    if second_start <= pdf_bytes.len() && byte_range[3] <= pdf_bytes.len() - second_start {
        let second = vstd::slice::slice_subrange(pdf_bytes, second_start, second_start + byte_range[3]);
        sha256_of_parts(first, second)
    } else {
        let empty: [u8; 0] = [];
        let r = sha256_of_parts(first, &empty);
        assert(first@ + empty@ =~= covered(pdf_bytes@, byte_range@));
        r
    }
}

/// The text written between the ByteRange's brackets: four decimal numbers
/// separated by spaces.
pub open spec fn byte_range_text(br: Seq<usize>) -> Seq<u8> {
    decimal(br[0] as nat) + seq![0x20u8] + decimal(br[1] as nat) + seq![0x20u8] + decimal(
        br[2] as nat,
    ) + seq![0x20u8] + decimal(br[3] as nat)
}

/// `n` copies of byte `b`.
pub open spec fn repeat(b: u8, n: nat) -> Seq<u8> {
    Seq::new(n, |i: int| b)
}

/// The ByteRange array before `limit`: the last `/ByteRange` key starts at
/// `k`, its `[` is at `o` and its `]` at `c`, all before `limit`.
pub open spec fn byte_range_slot(s: Seq<u8>, limit: int, k: int, o: int, c: int) -> bool {
    &&& is_last_occurrence(s.subrange(0, limit), byte_range_key(), k)
    &&& is_first_byte_from(s.subrange(0, limit), 0x5B, k, o)
    &&& is_first_byte_from(s.subrange(0, limit), 0x5D, o, c)
}

proof fn lemma_last_unique(s: Seq<u8>, pat: Seq<u8>, i: int, j: int)
    requires
        is_last_occurrence(s, pat, i),
        is_last_occurrence(s, pat, j),
    ensures
        i == j,
{
}

proof fn lemma_first_byte_unique(s: Seq<u8>, b: u8, from: int, i: int, j: int)
    requires
        is_first_byte_from(s, b, from, i),
        is_first_byte_from(s, b, from, j),
    ensures
        i == j,
{
    if i < j {
        assert(s[i] != b);
    } else if j < i {
        assert(s[j] != b);
    }
}

/// The ByteRange array is written in `s` at `[` offset `o` and `]` offset
/// `c`, after the `/ByteRange` key at `k` and before the window that `br`
/// leaves out: the four numbers of `br` padded with spaces.
pub open spec fn written_at(s: Seq<u8>, br: Seq<usize>, k: int, o: int, c: int) -> bool {
    &&& occurs_at(s, byte_range_key(), k)
    &&& k + byte_range_key().len() <= o < c < br[1] <= s.len()
    &&& s[o] == 0x5B
    &&& s[c] == 0x5D
    &&& byte_range_text(br).len() <= c - o - 1
    &&& s.subrange(o + 1, c) == byte_range_text(br) + repeat(0x20, (c - o - 1 - byte_range_text(br).len()) as nat)
}

/// `s` holds the ByteRange `br` written out before its window.
pub open spec fn byte_range_written(s: Seq<u8>, br: Seq<usize>) -> bool {
    exists|k: int, o: int, c: int| #[trigger] written_at(s, br, k, o, c)
}

proof fn lemma_slot_written(old_s: Seq<u8>, new_s: Seq<u8>, br: Seq<usize>, k: int, o: int, c: int)
    requires
        br.len() == 4,
        br[1] <= old_s.len(),
        byte_range_slot(old_s, br[1] as int, k, o, c),
        byte_range_text(br).len() <= c - o - 1,
        new_s == old_s.subrange(0, o + 1) + byte_range_text(br) + repeat(0x20, (c - o - 1 - byte_range_text(br).len()) as nat)
            + old_s.subrange(c, old_s.len() as int),
    ensures
        written_at(new_s, br, k, o, c),
{
    let head = old_s.subrange(0, br[1] as int);
    let key = byte_range_key();
    assert(occurs_at(head, key, k));
    assert forall|m: int| k <= m < k + key.len() implies head[m] != 0x5B by {
        assert(head[m] == head.subrange(k, k + key.len())[m - k]);
    }
    assert(o >= k + key.len());
    assert(new_s.subrange(k, k + key.len()) =~= head.subrange(k, k + key.len()));
    assert(new_s[o] == old_s[o]);
    assert(new_s[c] == old_s[c]);
    assert(new_s.subrange(o + 1, c) =~= byte_range_text(br) + repeat(0x20, (c - o - 1 - byte_range_text(br).len()) as nat));
}

/// Bytes before `br[1]` are all that `written_at` reads.
pub proof fn lemma_written_prefix(s: Seq<u8>, t: Seq<u8>, br: Seq<usize>)
    requires
        br.len() == 4,
        byte_range_written(s, br),
        br[1] <= t.len(),
        s.subrange(0, br[1] as int) == t.subrange(0, br[1] as int),
    ensures
        byte_range_written(t, br),
{
    let (k, o, c) = choose|k: int, o: int, c: int| #[trigger] written_at(s, br, k, o, c);
    let n = br[1] as int;
    let key = byte_range_key();
    assert(s[o] == s.subrange(0, n)[o]);
    assert(t[o] == t.subrange(0, n)[o]);
    assert(s[c] == s.subrange(0, n)[c]);
    assert(t[c] == t.subrange(0, n)[c]);
    assert(t.subrange(k, k + key.len()) =~= s.subrange(0, n).subrange(k, k + key.len()));
    assert(s.subrange(k, k + key.len()) =~= s.subrange(0, n).subrange(k, k + key.len()));
    assert(t.subrange(o + 1, c) =~= s.subrange(0, n).subrange(o + 1, c));
    assert(s.subrange(o + 1, c) =~= s.subrange(0, n).subrange(o + 1, c));
    assert(written_at(t, br, k, o, c));
}

/// Appends `n` copies of `b`.
fn push_repeat(buf: &mut Vec<u8>, b: u8, n: usize)
    ensures
        final(buf)@ == old(buf)@ + repeat(b, n as nat),
{
    let mut i: usize = 0;
    while i < n
        invariant
            i <= n,
            buf@ == old(buf)@ + repeat(b, i as nat),
        decreases n - i,
    {
        buf.push(b);
        i = i + 1;
        assert(buf@ =~= old(buf)@ + repeat(b, i as nat));
    }
}

/// Overwrites `dst[at..at + src.len()]` with `src`.
fn overwrite(dst: &mut Vec<u8>, at: usize, src: &[u8])
    requires
        at + src@.len() <= old(dst)@.len(),
    ensures
        final(dst)@ == old(dst)@.subrange(0, at as int) + src@ + old(dst)@.subrange(
            at + src@.len(),
            old(dst)@.len() as int,
        ),
{
    let n = dst.len();
    let mut i: usize = 0;
    while i < src.len()
        invariant
            n == old(dst)@.len(),
            at + src@.len() <= old(dst)@.len(),
            dst@.len() == old(dst)@.len(),
            i <= src@.len(),
            forall|k: int| 0 <= k < dst@.len() ==> dst@[k] == if at <= k < at + i {
                src@[k - at]
            } else {
                old(dst)@[k]
            },
        decreases src@.len() - i,
    {
        dst.set(at + i, src[i]);
        i = i + 1;
    }
    assert(final(dst)@ =~= old(dst)@.subrange(0, at as int) + src@ + old(dst)@.subrange(
        at + src@.len(),
        old(dst)@.len() as int,
    ));
}

/// Writes the real ByteRange values into the placeholder array that
/// precedes the `/Contents` window, padding with spaces to the placeholder's
/// width so that no other byte moves. Fails, leaving the bytes as they were,
/// when no such array is found or the values do not fit its width.
pub fn write_byte_range(pdf_bytes: &mut Vec<u8>, byte_range: &[usize; 4]) -> (r: Result<(), ESignError>)
    requires
        byte_range@[1] <= old(pdf_bytes)@.len(),
    ensures
        final(pdf_bytes)@.len() == old(pdf_bytes)@.len(),
        r is Ok ==> byte_range_written(final(pdf_bytes)@, byte_range@),
        match r {
            Ok(()) => exists|k: int, o: int, c: int|
                #[trigger] byte_range_slot(old(pdf_bytes)@, byte_range@[1] as int, k, o, c)
                    && byte_range_text(byte_range@).len() <= c - o - 1
                    && final(pdf_bytes)@ == old(pdf_bytes)@.subrange(0, o + 1) + byte_range_text(
                    byte_range@,
                ) + repeat(0x20, (c - o - 1 - byte_range_text(byte_range@).len()) as nat)
                    + old(pdf_bytes)@.subrange(c, old(pdf_bytes)@.len() as int),
            Err(e) => e is Pdf && final(pdf_bytes)@ == old(pdf_bytes)@ && !exists|k: int, o: int, c: int|
                #[trigger] byte_range_slot(old(pdf_bytes)@, byte_range@[1] as int, k, o, c)
                    && byte_range_text(byte_range@).len() <= c - o - 1,
        },
{
    let limit = byte_range[1];
    let head = vstd::slice::slice_subrange(pdf_bytes.as_slice(), 0, limit);
    let key: Vec<u8> = vec![0x2F, 0x42, 0x79, 0x74, 0x65, 0x52, 0x61, 0x6E, 0x67, 0x65];
    assert(key@ =~= byte_range_key());
    assert(head@ == old(pdf_bytes)@.subrange(0, limit as int));
    let k = match rfind_bytes(head, key.as_slice()) {
        Some(k) => k,
        None => {
            return Err(ESignError::Pdf(String::from_str("Cannot find /ByteRange placeholder")));
        },
    };
    let o = match find_byte_from(head, 0x5B, k) {
        Some(o) => o,
        None => {
            proof {
                assert forall|k2: int, o2: int, c2: int| #[trigger] byte_range_slot(old(pdf_bytes)@, limit as int, k2, o2, c2) implies false by {
                    lemma_last_unique(head@, byte_range_key(), k as int, k2);
                }
            }
            return Err(ESignError::Pdf(String::from_str("Cannot find /ByteRange array")));
        },
    };
    let c = match find_byte_from(head, 0x5D, o) {
        Some(c) => c,
        None => {
            proof {
                assert forall|k2: int, o2: int, c2: int| #[trigger] byte_range_slot(old(pdf_bytes)@, limit as int, k2, o2, c2) implies false by {
                    lemma_last_unique(head@, byte_range_key(), k as int, k2);
                    lemma_first_byte_unique(head@, 0x5B, k as int, o as int, o2);
                }
            }
            return Err(ESignError::Pdf(String::from_str("Cannot find end of /ByteRange array")));
        },
    };
    let mut text: Vec<u8> = Vec::new();
    push_decimal(&mut text, byte_range[0] as u64);
    text.push(0x20);
    push_decimal(&mut text, byte_range[1] as u64);
    text.push(0x20);
    push_decimal(&mut text, byte_range[2] as u64);
    text.push(0x20);
    push_decimal(&mut text, byte_range[3] as u64);
    assert(text@ =~= byte_range_text(byte_range@));
    let width = c - o - 1;
    if text.len() > width {
        proof {
            assert forall|k2: int, o2: int, c2: int| #[trigger] byte_range_slot(old(pdf_bytes)@, limit as int, k2, o2, c2)
                implies byte_range_text(byte_range@).len() > c2 - o2 - 1 by {
                lemma_last_unique(head@, byte_range_key(), k as int, k2);
                lemma_first_byte_unique(head@, 0x5B, k as int, o as int, o2);
                lemma_first_byte_unique(head@, 0x5D, o as int, c as int, c2);
            }
        }
        return Err(ESignError::Pdf(String::from_str("ByteRange values do not fit the placeholder")));
    }
    let pad = width - text.len();
    push_repeat(&mut text, 0x20, pad);
    assert(byte_range_slot(old(pdf_bytes)@, limit as int, k as int, o as int, c as int));
    let ghost padded = text@;
    assert(padded == byte_range_text(byte_range@) + repeat(0x20, (c - o - 1 - byte_range_text(byte_range@).len()) as nat));
    assert(padded.len() == c - o - 1);
    overwrite(pdf_bytes, o + 1, text.as_slice());
    proof {
        assert(o + 1 + padded.len() == c);
        assert(pdf_bytes@ =~= old(pdf_bytes)@.subrange(0, o + 1) + byte_range_text(byte_range@) + repeat(
            0x20,
            (c - o - 1 - byte_range_text(byte_range@).len()) as nat,
        ) + old(pdf_bytes)@.subrange(c as int, old(pdf_bytes)@.len() as int));
        lemma_slot_written(old(pdf_bytes)@, pdf_bytes@, byte_range@, k as int, o as int, c as int);
    }
    Ok(())
}

/// Splices the upper-case hex rendering of `cms_data`, right-padded with
/// `'0'` to `HEX_WINDOW` characters, between the angle brackets of the
/// `/Contents` window that `byte_range` leaves out. Fails with a
/// "too large" error when the rendering exceeds the window, and with a size
/// mismatch when the ByteRange does not describe a window of exactly that
/// size inside the file.
pub fn embed_signature(pdf_bytes: Vec<u8>, cms_data: &[u8], byte_range: &[usize; 4]) -> (r: Result<Vec<u8>, ESignError>)
    ensures
        match r {
            Ok(out) => {
                &&& 2 * cms_data@.len() <= HEX_WINDOW
                &&& byte_range@[2] - byte_range@[1] == HEX_WINDOW + 2
                &&& byte_range@[1] + byte_range@[3] + (byte_range@[2] - byte_range@[1]) == out@.len()
                &&& out@ == pdf_bytes@.subrange(0, byte_range@[1] + 1) + hex_text(cms_data@, true)
                    + repeat(0x30, (HEX_WINDOW - 2 * cms_data@.len()) as nat) + pdf_bytes@.subrange(
                    byte_range@[2] - 1,
                    pdf_bytes@.len() as int,
                )
                &&& covered(out@, byte_range@) == covered(pdf_bytes@, byte_range@)
                &&& forall|k: int| byte_range@[1] < k < byte_range@[2] - 1 ==> is_upper_hex_digit(#[trigger] out@[k])
            },
            Err(e) => if 2 * cms_data@.len() > HEX_WINDOW {
                e matches ESignError::Signing { code, message } && code == SigningErrorCode::SigningFailed
                    && message@ == SIGNATURE_TOO_LARGE@
            } else {
                e is Pdf && (byte_range@[0] != 0 || byte_range@[2] - byte_range@[1] != HEX_WINDOW + 2
                    || byte_range@[2] + byte_range@[3] != pdf_bytes@.len())
            },
        },
{
    if cms_data.len() > SIGNATURE_CONTAINER_SIZE {
        return Err(ESignError::Signing {
            code: SigningErrorCode::SigningFailed,
            message: String::from_str(SIGNATURE_TOO_LARGE),
        });
    }
    let hex = hex_encode(cms_data, true);
    if byte_range[0] != 0 || byte_range[1] >= byte_range[2] || byte_range[2] - byte_range[1] != HEX_WINDOW + 2
        || byte_range[2] > pdf_bytes.len() || byte_range[3] != pdf_bytes.len() - byte_range[2] {
        return Err(ESignError::Pdf(String::from_str("Signature container size mismatch")));
    }
    let mut window = hex;
    let pad = HEX_WINDOW - window.len();
    push_repeat(&mut window, 0x30, pad);
    let mut out = pdf_bytes;
    overwrite(&mut out, byte_range[1] + 1, window.as_slice());
    proof {
        let b1 = byte_range@[1] as int;
        let b2 = byte_range@[2] as int;
        let b3 = byte_range@[3] as int;
        assert(out@.subrange(0, b1) =~= pdf_bytes@.subrange(0, b1));
        assert(out@.subrange(b2, b2 + b3) =~= pdf_bytes@.subrange(b2, b2 + b3));
        lemma_hex_text_upper(cms_data@);
        assert forall|k: int| b1 < k < b2 - 1 implies is_upper_hex_digit(#[trigger] out@[k]) by {
            assert(out@[k] == window@[k - b1 - 1]);
            if k - b1 - 1 < hex_text(cms_data@, true).len() {
                assert(window@[k - b1 - 1] == hex_text(cms_data@, true)[k - b1 - 1]);
            }
        }
    }
    Ok(out)
}

/// Zero-based index of a one-based page number: `page` must lie in
/// `1..=page_count`, otherwise the signature page is invalid.
pub fn select_page_index(page: u32, page_count: usize) -> (r: Result<usize, ESignError>)
    ensures
        match r {
            Ok(i) => 1 <= page <= page_count && i == page - 1,
            Err(e) => (page == 0 || page > page_count) && (e matches ESignError::Signing { code, .. }
                && code == SigningErrorCode::InvalidSignaturePage),
        },
{
    if page == 0 || page as usize > page_count {
        Err(ESignError::Signing { code: SigningErrorCode::InvalidSignaturePage, message: String::from_str("Page not found") })
    } else {
        Ok((page - 1) as usize)
    }
}

} // verus!
