//! Text of the visible signature as glyph ids of an embedded TrueType font,
//! written as the hex string of a PDF `Identity-H` text operand.
use vstd::prelude::*;
use crate::crypto::{hex_digit_upper};

verus! {

/// The glyph of each character of `text` in the font `font_data` (0 for a
/// character the font lacks), or `None` when the font does not parse.
pub uninterp spec fn glyph_ids_of(font_data: Seq<u8>, text: Seq<char>) -> Option<Seq<u16>>;

/// Relies on ttf-parser's `Face::parse` (face 0) and `Face::glyph_index`
/// for each character, a missing glyph counting as 0.
#[verifier::external_body]
fn glyph_ids(font_data: &[u8], text: &str) -> (r: Option<Vec<u16>>)
    ensures
        match r {
            Some(v) => glyph_ids_of(font_data@, text@) == Some(v@),
            None => glyph_ids_of(font_data@, text@) is None,
        },
{
    ttf_parser::Face::parse(font_data, 0).ok().map(|face| text.chars().map(|c| face.glyph_index(c).map(|g| g.0).unwrap_or(0)).collect())
}

/// UTF-16 code units of a character.
pub open spec fn utf16_units(c: char) -> Seq<u16> {
    let v = c as u32;
    if v < 0x10000 {
        seq![v as u16]
    } else {
        let w = (v - 0x10000) as nat;
        seq![(0xD800 + w / 1024) as u16, (0xDC00 + w % 1024) as u16]
    }
}

/// UTF-16 encoding of a text.
pub open spec fn utf16_of(text: Seq<char>) -> Seq<u16>
    decreases text.len(),
{
    if text.len() == 0 {
        Seq::empty()
    } else {
        utf16_of(text.drop_last()) + utf16_units(text.last())
    }
}

proof fn lemma_utf16_units_shape(c: char)
    ensures
        utf16_units(c).len() == 1 ==> !(0xDC00 <= utf16_units(c)[0] <= 0xDFFF) && (utf16_units(c)[0] as u32) == (c as u32),
        utf16_units(c).len() == 2 ==> 0xDC00 <= utf16_units(c)[1] <= 0xDFFF,
        1 <= utf16_units(c).len() <= 2,
{
    vstd::utf8::char_is_scalar(c);
    let v = c as u32;
    if v >= 0x10000 {
        let w = (v - 0x10000) as nat;
        assert(w % 1024 < 1024);
    }
}

proof fn lemma_utf16_units_injective(a: char, b: char)
    requires
        utf16_units(a) == utf16_units(b),
    ensures
        a == b,
{
    vstd::utf8::char_is_scalar(a);
    vstd::utf8::char_is_scalar(b);
    let va = a as u32;
    let vb = b as u32;
    if va < 0x10000 {
        lemma_utf16_units_shape(b);
        assert(vb < 0x10000);
        assert(va == vb);
    } else {
        lemma_utf16_units_shape(b);
        assert(vb >= 0x10000);
        let wa = (va - 0x10000) as nat;
        let wb = (vb - 0x10000) as nat;
        assert(wa / 1024 == wb / 1024);
        assert(wa % 1024 == wb % 1024);
        assert(wa == wb) by (nonlinear_arith)
            requires wa / 1024 == wb / 1024, wa % 1024 == wb % 1024;
    }
    vstd::utf8::char_u32_cast(a, va);
    vstd::utf8::char_u32_cast(b, vb);
}

/// Distinct texts have distinct UTF-16 encodings.
pub proof fn lemma_utf16_injective(a: Seq<char>, b: Seq<char>)
    requires
        utf16_of(a) == utf16_of(b),
    ensures
        a == b,
    decreases a.len() + b.len(),
{
    if a.len() == 0 {
        if b.len() > 0 {
            lemma_utf16_units_shape(b.last());
        }
        assert(b.len() == 0);
        assert(a =~= b);
    } else if b.len() == 0 {
        lemma_utf16_units_shape(a.last());
    } else {
        let ua = utf16_units(a.last());
        let ub = utf16_units(b.last());
        let pa = utf16_of(a.drop_last());
        let pb = utf16_of(b.drop_last());
        lemma_utf16_units_shape(a.last());
        lemma_utf16_units_shape(b.last());
        let n = utf16_of(a).len();
        assert(utf16_of(a) == pa + ua);
        assert(utf16_of(b) == pb + ub);
        assert(utf16_of(a)[n - 1] == ua[ua.len() - 1]);
        assert(utf16_of(b)[n - 1] == ub[ub.len() - 1]);
        assert(ua.len() == ub.len());
        assert(ua =~= utf16_of(a).subrange(n - ua.len(), n as int));
        assert(ub =~= utf16_of(b).subrange(n - ub.len(), n as int));
        assert(pa =~= utf16_of(a).subrange(0, n - ua.len()));
        assert(pb =~= utf16_of(b).subrange(0, n - ub.len()));
        lemma_utf16_units_injective(a.last(), b.last());
        lemma_utf16_injective(a.drop_last(), b.drop_last());
        assert(a =~= a.drop_last().push(a.last()));
        assert(b =~= b.drop_last().push(b.last()));
    }
}

/// Four upper-case hex digits per 16-bit unit.
pub open spec fn hex16_text(units: Seq<u16>) -> Seq<char>
    decreases units.len(),
{
    if units.len() == 0 {
        Seq::empty()
    } else {
        let u = units.last() as nat;
        hex16_text(units.drop_last()) + seq![
            hex_digit_upper(u / 4096) as char,
            hex_digit_upper((u / 256) % 16) as char,
            hex_digit_upper((u / 16) % 16) as char,
            hex_digit_upper(u % 16) as char,
        ]
    }
}

/// Relies on `String::push`: appends one character.
#[verifier::external_body]
fn push_char(s: &mut String, c: char)
    ensures
        final(s)@ == old(s)@.push(c),
{
    s.push(c);
}

/// One upper-case hex digit of a nibble.
fn hex_char(n: u16) -> (r: char)
    requires
        n < 16,
    ensures
        r == hex_digit_upper(n as nat) as char,
{
    if n < 10 {
        ((48 + n) as u8) as char
    } else {
        ((55 + n) as u8) as char
    }
}

/// Renders 16-bit units as four upper-case hex digits each.
pub fn units_to_hex(units: &[u16]) -> (r: String)
    ensures
        r@ == hex16_text(units@),
{
    let mut s = String::new();
    let mut i: usize = 0;
    while i < units.len()
        invariant
            i <= units@.len(),
            s@ == hex16_text(units@.subrange(0, i as int)),
        decreases units@.len() - i,
    {
        let u = units[i];
        push_char(&mut s, hex_char(u / 4096));
        push_char(&mut s, hex_char((u / 256) % 16));
        push_char(&mut s, hex_char((u / 16) % 16));
        push_char(&mut s, hex_char(u % 16));
        proof {
            let sub = units@.subrange(0, i + 1);
            assert(sub.drop_last() =~= units@.subrange(0, i as int));
            assert(sub.last() == u);
        }
        i = i + 1;
        assert(s@ =~= hex16_text(units@.subrange(0, i as int)));
    }
    assert(units@.subrange(0, units@.len() as int) =~= units@);
    s
}

/// UTF-16 encoding of `text`.
pub fn encode_utf16(text: &str) -> (r: Vec<u16>)
    ensures
        r@ == utf16_of(text@),
{
    let n = text.unicode_len();
    let mut out: Vec<u16> = Vec::new();
    let mut i: usize = 0;
    while i < n
        invariant
            n == text@.len(),
            i <= n,
            out@ == utf16_of(text@.subrange(0, i as int)),
        decreases n - i,
    {
        let c = text.get_char(i);
        let v = c as u32;
        if v < 0x10000 {
            out.push(v as u16);
        } else {
            proof {
                vstd::utf8::char_is_scalar(c);
            }
            let w = v - 0x10000;
            out.push((0xD800 + w / 1024) as u16);
            out.push((0xDC00 + w % 1024) as u16);
        }
        proof {
            let sub = text@.subrange(0, i + 1);
            assert(sub.drop_last() =~= text@.subrange(0, i as int));
            assert(sub.last() == c);
        }
        i = i + 1;
        assert(out@ =~= utf16_of(text@.subrange(0, i as int)));
    }
    assert(text@.subrange(0, n as int) =~= text@);
    out
}

/// `text` as a PDF hex string of glyph ids in `font_data`, four upper-case
/// hex digits per character; when the font does not parse, the UTF-16 code
/// units of the text instead.
pub fn utf8_to_pdf_hex_with_font(text: &str, font_data: &[u8]) -> (r: String)
    ensures
        r@ == match glyph_ids_of(font_data@, text@) {
            Some(g) => hex16_text(g),
            None => hex16_text(utf16_of(text@)),
        },
{
    match glyph_ids(font_data, text) {
        Some(g) => units_to_hex(g.as_slice()),
        None => units_to_hex(encode_utf16(text).as_slice()),
    }
}

/// The regular weight of the signature font. The font program is not
/// bundled with this library, so glyph lookups fall back to UTF-16.
pub const REGULAR_FONT: [u8; 0] = [];

/// The semibold weight of the signature font; see `REGULAR_FONT`.
pub const SEMIBOLD_FONT: [u8; 0] = [];

/// `text` in glyph ids of the regular signature font.
pub fn utf8_to_pdf_hex(text: &str) -> (r: String)
    ensures
        r@ == match glyph_ids_of(Seq::empty(), text@) {
            Some(g) => hex16_text(g),
            None => hex16_text(utf16_of(text@)),
        },
{
    let font = REGULAR_FONT;
    assert(font@ =~= Seq::<u8>::empty());
    utf8_to_pdf_hex_with_font(text, &font)
}

/// `text` in glyph ids of the semibold signature font.
pub fn utf8_to_pdf_hex_bold(text: &str) -> (r: String)
    ensures
        r@ == match glyph_ids_of(Seq::empty(), text@) {
            Some(g) => hex16_text(g),
            None => hex16_text(utf16_of(text@)),
        },
{
    let font = SEMIBOLD_FONT;
    assert(font@ =~= Seq::<u8>::empty());
    utf8_to_pdf_hex_with_font(text, &font)
}

} // verus!
