//! Provider library checks, architecture-mismatch diagnosis and the
//! rendering of distinguished names.
use vstd::prelude::*;
use vstd::string::{StringExecFns, StringSliceAdditionalSpecFns};
use vstd::utf8::{decode_utf8, valid_utf8};
use crate::bytes::{
    contains, contains_bytes, ends_with, ends_with_bytes, find_byte_from, find_bytes,
    is_first_byte_from, is_first_occurrence, matches_at, occurs_at,
};
use crate::der::bytes_of;
use crate::error::ESignError;
use crate::pkcs11::library_paths::{
    HostOs, allowed_prefixes, allowed_prefixes_spec, library_extension, library_extension_spec,
};
use crate::time::text_from_bytes;
use crate::font::{lemma_utf16_injective, utf16_of};
use crate::x509::{attributes_view, name_attributes, x509_name_attributes};

verus! {

/// `path` lies under one of the host's allowed directories and has the
/// host's dynamic-library extension.
pub open spec fn library_location_ok(path: Seq<u8>, os: HostOs) -> bool {
    &&& exists|i: int| 0 <= i < allowed_prefixes_spec(os).len() && occurs_at(path, #[trigger] allowed_prefixes_spec(os)[i].spec_bytes(), 0)
    &&& ends_with(path, library_extension_spec(os).spec_bytes())
}

/// Checks a canonical library path against the host's allow-list of
/// directories and its dynamic-library extension.
pub fn validate_library_path(canonical_path: &str, os: HostOs) -> (r: Result<(), ESignError>)
    ensures
        r is Ok <==> library_location_ok(canonical_path.spec_bytes(), os),
        r matches Err(e) ==> e is Pkcs11,
{
    let path = canonical_path.as_bytes();
    let prefixes = allowed_prefixes(os);
    let mut found = false;
    let mut i: usize = 0;
    while i < prefixes.len()
        invariant
            prefixes@ == allowed_prefixes_spec(os),
            i <= prefixes@.len(),
            path@ == canonical_path.spec_bytes(),
            found <==> exists|j: int| 0 <= j < i && occurs_at(path@, #[trigger] allowed_prefixes_spec(os)[j].spec_bytes(), 0),
        decreases prefixes@.len() - i,
    {
        if matches_at(path, prefixes[i].as_bytes(), 0) {
            found = true;
        }
        i = i + 1;
    }
    if !found {
        return Err(ESignError::Pkcs11(String::from_str("Library path is not in an allowed location")));
    }
    if !ends_with_bytes(path, library_extension(os).as_bytes()) {
        return Err(ESignError::Pkcs11(String::from_str("Library path has an invalid extension")));
    }
    Ok(())
}

/// The bytes between `key` and the next `'` after its first occurrence.
pub open spec fn quoted_after(s: Seq<u8>, key: Seq<u8>) -> Option<Seq<u8>> {
    if exists|i: int| #[trigger] is_first_occurrence(s, key, i) {
        let i = choose|i: int| is_first_occurrence(s, key, i);
        if exists|e: int| #[trigger] is_first_byte_from(s, 0x27, i + key.len(), e) {
            let e = choose|e: int| #[trigger] is_first_byte_from(s, 0x27, i + key.len(), e);
            Some(s.subrange(i + key.len(), e))
        } else {
            None
        }
    } else {
        None
    }
}

/// The text quoted after `key`, or `default` when there is none; quoted
/// bytes that are not UTF-8 give the empty text.
pub open spec fn quoted_text(s: Seq<u8>, key: Seq<u8>, default: Seq<char>) -> Seq<char> {
    match quoted_after(s, key) {
        Some(q) => if valid_utf8(q) {
            decode_utf8(q)
        } else {
            Seq::empty()
        },
        None => default,
    }
}

/// `have '`.
pub open spec fn have_key() -> Seq<u8> {
    seq![0x68u8, 0x61, 0x76, 0x65, 0x20, 0x27]
}

/// `need '`.
pub open spec fn need_key() -> Seq<u8> {
    seq![0x6Eu8, 0x65, 0x65, 0x64, 0x20, 0x27]
}

/// The text between `key` and the next `'`, if both are present.
fn quoted(s: &[u8], key: &[u8]) -> (r: Option<String>)
    requires
        key@.len() > 0,
    ensures
        match quoted_after(s@, key@) {
            Some(q) => r matches Some(t) && t@ == (if valid_utf8(q) {
                decode_utf8(q)
            } else {
                Seq::empty()
            }),
            None => r is None,
        },
{
    let i = match find_bytes(s, key) {
        Some(i) => i,
        None => {
            return None;
        },
    };
    let ghost gi = choose|i: int| is_first_occurrence(s@, key@, i);
    assert(is_first_occurrence(s@, key@, i as int));
    assert(gi == i) by {
        if gi < i {
            assert(!occurs_at(s@, key@, gi));
        } else if gi > i {
            assert(!occurs_at(s@, key@, i as int));
        }
    }
    let n = s.len();
    assert(i + key@.len() <= n);
    let e = match find_byte_from(s, 0x27, i + key.len()) {
        Some(e) => e,
        None => {
            return None;
        },
    };
    let ghost ge = choose|e: int| #[trigger] is_first_byte_from(s@, 0x27, i + key@.len(), e);
    assert(is_first_byte_from(s@, 0x27, i + key@.len(), e as int));
    assert(ge == e) by {
        if ge < e {
            assert(s@[ge] != 0x27);
        } else if ge > e {
            assert(s@[e as int] != 0x27);
        }
    }
    let q = bytes_of(vstd::slice::slice_subrange(s, i + key.len(), e));
    Some(text_from_bytes(q))
}

/// Reads the library's and the host's architectures out of a loader message
/// of the form `have 'x86_64', need 'arm64e' or 'arm64'`. The library's is
/// `unknown` and the host's is `host_arch` where the message says nothing.
pub fn parse_arch_from_error(error_str: &str, host_arch: &str) -> (r: (String, String))
    ensures
        r.0@ == quoted_text(error_str.spec_bytes(), have_key(), "unknown"@),
        r.1@ == quoted_text(error_str.spec_bytes(), need_key(), host_arch@),
{
    let s = error_str.as_bytes();
    let have: [u8; 6] = [0x68, 0x61, 0x76, 0x65, 0x20, 0x27];
    let need: [u8; 6] = [0x6E, 0x65, 0x65, 0x64, 0x20, 0x27];
    assert(have@ =~= have_key());
    assert(need@ =~= need_key());
    let library_arch = match quoted(s, &have) {
        Some(t) => t,
        None => String::from_str("unknown"),
    };
    let host = match quoted(s, &need) {
        Some(t) => t,
        None => String::from_str(host_arch),
    };
    (library_arch, host)
}

/// Guidance for an x86_64 library on an ARM64 host.
pub const GUIDANCE_INTEL_ON_ARM: &'static str = "Thư viện PKCS#11 của nhà cung cấp chỉ hỗ trợ Intel (x86_64). Giải pháp: (1) Liên hệ nhà cung cấp CA để xin phiên bản ARM64, hoặc (2) Chạy ứng dụng qua Rosetta 2: arch -x86_64 open -a \"Konek eSign\"";

/// Guidance for an ARM64 library on an x86_64 host.
pub const GUIDANCE_ARM_ON_INTEL: &'static str = "Thư viện PKCS#11 chỉ hỗ trợ Apple Silicon (ARM64). Vui lòng liên hệ nhà cung cấp CA để xin phiên bản Intel (x86_64).";

/// `arm64`.
pub open spec fn arm64_bytes() -> Seq<u8> {
    seq![0x61u8, 0x72, 0x6D, 0x36, 0x34]
}

/// `x86_64`.
pub open spec fn x86_64_bytes() -> Seq<u8> {
    seq![0x78u8, 0x38, 0x36, 0x5F, 0x36, 0x34]
}

/// The guidance shown for a library of architecture `lib` on a host of
/// architecture `host`.
pub open spec fn arch_guidance(lib: Seq<char>, host: Seq<char>, library_path: Seq<char>) -> Seq<char> {
    if contains(crate::pkcs11::helpers::utf8_of(host), arm64_bytes()) && contains(utf8_of(lib), x86_64_bytes()) {
        GUIDANCE_INTEL_ON_ARM@
    } else if contains(utf8_of(host), x86_64_bytes()) && contains(utf8_of(lib), arm64_bytes()) {
        GUIDANCE_ARM_ON_INTEL@
    } else {
        "Thư viện '"@ + library_path + "' không tương thích với kiến trúc hệ thống. Vui lòng liên hệ nhà cung cấp CA."@
    }
}

/// The UTF-8 bytes of a text.
pub open spec fn utf8_of(s: Seq<char>) -> Seq<u8> {
    vstd::utf8::encode_utf8(s)
}

/// The architecture-mismatch error for a loader message, naming both
/// architectures and telling the user what to do.
pub fn create_arch_mismatch_error(error_str: &str, library_path: &str, host_arch: &str) -> (r: ESignError)
    ensures
        r matches ESignError::LibraryArchitectureMismatch { library_arch: la, host_arch: ha, library_path: lp, guidance: g }
            && la@ == quoted_text(error_str.spec_bytes(), have_key(), "unknown"@)
            && ha@ == quoted_text(error_str.spec_bytes(), need_key(), host_arch@)
            && lp@ == library_path@
            && g@ == arch_guidance(la@, ha@, library_path@),
{
    let (library_arch, host) = parse_arch_from_error(error_str, host_arch);
    let arm: [u8; 5] = [0x61, 0x72, 0x6D, 0x36, 0x34];
    let x86: [u8; 6] = [0x78, 0x38, 0x36, 0x5F, 0x36, 0x34];
    assert(arm@ =~= arm64_bytes());
    assert(x86@ =~= x86_64_bytes());
    let hb = host.as_str().as_bytes();
    let lb = library_arch.as_str().as_bytes();
    let guidance = if contains_bytes(hb, &arm) && contains_bytes(lb, &x86) {
        String::from_str(GUIDANCE_INTEL_ON_ARM)
    } else if contains_bytes(hb, &x86) && contains_bytes(lb, &arm) {
        String::from_str(GUIDANCE_ARM_ON_INTEL)
    } else {
        String::from_str("Thư viện '").concat(library_path).concat(
            "' không tương thích với kiến trúc hệ thống. Vui lòng liên hệ nhà cung cấp CA.",
        )
    };
    ESignError::LibraryArchitectureMismatch {
        library_arch,
        host_arch: host,
        library_path: String::from_str(library_path),
        guidance,
    }
}

/// Relies on `String::from_utf16`: it decodes valid UTF-16, that is the
/// encoding of some text, and fails on anything else.
#[verifier::external_body]
pub(crate) fn string_from_utf16(units: &[u16]) -> (r: Option<String>)
    ensures
        match r {
            Some(s) => utf16_of(s@) == units@,
            None => forall|t: Seq<char>| #[trigger] utf16_of(t) != units@,
        },
{
    String::from_utf16(units).ok()
}

/// Big-endian 16-bit code units of a byte string of even length.
pub open spec fn be_units(data: Seq<u8>) -> Seq<u16> {
    Seq::new(data.len() / 2, |i: int| (data[2 * i] as nat * 256 + data[2 * i + 1] as nat) as u16)
}

/// The short label of a name attribute type, or its dotted OID.
pub open spec fn attr_label(oid: Seq<char>) -> Seq<char> {
    if oid == "2.5.4.3"@ {
        "CN"@
    } else if oid == "2.5.4.6"@ {
        "C"@
    } else if oid == "2.5.4.7"@ {
        "L"@
    } else if oid == "2.5.4.8"@ {
        "ST"@
    } else if oid == "2.5.4.10"@ {
        "O"@
    } else if oid == "2.5.4.11"@ {
        "OU"@
    } else {
        oid
    }
}

/// The text of a name attribute value: UTF8String, PrintableString,
/// NumericString and IA5String as UTF-8, BMPString as UTF-16BE; `?` for
/// anything else or anything that does not decode.
pub open spec fn value_text(tag: u32, data: Seq<u8>) -> Seq<char> {
    if tag == 12 || tag == 19 || tag == 18 || tag == 22 {
        if valid_utf8(data) {
            decode_utf8(data)
        } else {
            "?"@
        }
    } else if tag == 30 && data.len() % 2 == 0 {
        if exists|t: Seq<char>| #[trigger] utf16_of(t) == be_units(data) {
            choose|t: Seq<char>| #[trigger] utf16_of(t) == be_units(data)
        } else {
            "?"@
        }
    } else {
        "?"@
    }
}

/// `LABEL=value` for one attribute.
pub open spec fn attr_text(a: (Seq<char>, u32, Seq<u8>)) -> Seq<char> {
    attr_label(a.0) + "="@ + value_text(a.1, a.2)
}

/// The attributes of a name as `LABEL=value`, joined by `, `.
pub open spec fn dn_text(attrs: Seq<(Seq<char>, u32, Seq<u8>)>) -> Seq<char>
    decreases attrs.len(),
{
    if attrs.len() == 0 {
        Seq::empty()
    } else if attrs.len() == 1 {
        attr_text(attrs[0])
    } else {
        dn_text(attrs.drop_last()) + ", "@ + attr_text(attrs.last())
    }
}

/// Short label of a name attribute type.
fn label_of(oid: &String) -> (r: String)
    ensures
        r@ == attr_label(oid@),
{
    if *oid == String::from_str("2.5.4.3") {
        String::from_str("CN")
    } else if *oid == String::from_str("2.5.4.6") {
        String::from_str("C")
    } else if *oid == String::from_str("2.5.4.7") {
        String::from_str("L")
    } else if *oid == String::from_str("2.5.4.8") {
        String::from_str("ST")
    } else if *oid == String::from_str("2.5.4.10") {
        String::from_str("O")
    } else if *oid == String::from_str("2.5.4.11") {
        String::from_str("OU")
    } else {
        oid.clone()
    }
}

/// Decodes a name attribute value by its tag.
pub fn decode_value(tag: u32, data: &[u8]) -> (r: String)
    ensures
        r@ == value_text(tag, data@),
{
    if tag == 12 || tag == 19 || tag == 18 || tag == 22 {
        match crate::time::string_from_utf8(bytes_of(data)) {
            Some(s) => s,
            None => String::from_str("?"),
        }
    } else if tag == 30 && data.len() % 2 == 0 {
        let mut units: Vec<u16> = Vec::new();
        let mut i: usize = 0;
        while i < data.len() / 2
            invariant
                data@.len() % 2 == 0,
                i <= data@.len() / 2,
                units@ == be_units(data@).subrange(0, i as int),
            decreases data@.len() / 2 - i,
        {
            let u = (data[2 * i] as u16) * 256 + data[2 * i + 1] as u16;
            units.push(u);
            i = i + 1;
            assert(units@ =~= be_units(data@).subrange(0, i as int));
        }
        assert(units@ =~= be_units(data@));
        match string_from_utf16(units.as_slice()) {
            Some(s) => {
                proof {
                    let t = choose|t: Seq<char>| #[trigger] utf16_of(t) == be_units(data@);
                    lemma_utf16_injective(s@, t);
                }
                s
            },
            None => String::from_str("?"),
        }
    } else {
        String::from_str("?")
    }
}

/// Renders a DER-encoded distinguished name as `CN=..., O=..., C=...`,
/// decoding UTF8String, PrintableString and BMPString values so that
/// non-ASCII names come out intact. A name that does not parse renders
/// as the empty string.
pub fn format_dn_utf8(name_der: &[u8]) -> (r: String)
    ensures
        match x509_name_attributes(name_der@) {
            Some(attrs) => r@ == dn_text(attrs),
            None => r@.len() == 0,
        },
{
    let attrs = match name_attributes(name_der) {
        Some(a) => a,
        None => {
            return String::new();
        },
    };
    let ghost view = attributes_view(attrs@);
    let mut out = String::new();
    let mut i: usize = 0;
    while i < attrs.len()
        invariant
            view == attributes_view(attrs@),
            i <= attrs@.len(),
            out@ == dn_text(view.subrange(0, i as int)),
        decreases attrs@.len() - i,
    {
        let a = &attrs[i];
        let part = label_of(&a.oid).concat("=").concat(decode_value(a.tag, a.value.as_slice()).as_str());
        proof {
            let sub = view.subrange(0, i + 1);
            assert(sub.drop_last() =~= view.subrange(0, i as int));
            assert(sub.last() == view[i as int]);
            assert(part@ == attr_text(view[i as int]));
        }
        if i == 0 {
            out = part;
        } else {
            out = out.concat(", ").concat(part.as_str());
        }
        i = i + 1;
    }
    assert(view.subrange(0, attrs@.len() as int) =~= view);
    out
}

} // verus!
