//! Checks on the paths of the documents read and written: a `.pdf`
//! extension and no system directory.
use vstd::prelude::*;
use vstd::string::{StringExecFns, StringSliceAdditionalSpecFns};
use crate::bytes::occurs_at;
use crate::error::ESignError;
use crate::pkcs11::library_paths::HostOs;

verus! {

/// ASCII lower case of a byte.
pub open spec fn lower(b: u8) -> u8 {
    if 65 <= b <= 90 {
        (b + 32) as u8
    } else {
        b
    }
}

/// `s` starts with `p`, ignoring ASCII case.
pub open spec fn starts_with_ci(s: Seq<u8>, p: Seq<u8>) -> bool {
    p.len() <= s.len() && forall|i: int| 0 <= i < p.len() ==> lower(#[trigger] s[i]) == lower(p[i])
}

/// The path's file name has the extension `pdf`, in any case: it ends with
/// `.pdf` and the dot is not the first character of the file name.
pub open spec fn has_pdf_extension(s: Seq<u8>, os: HostOs) -> bool {
    &&& s.len() >= 5
    &&& lower(s[s.len() - 4]) == 0x2E
    &&& lower(s[s.len() - 3]) == 0x70
    &&& lower(s[s.len() - 2]) == 0x64
    &&& lower(s[s.len() - 1]) == 0x66
    &&& s[s.len() - 5] != 0x2F
    &&& (os == HostOs::Windows ==> s[s.len() - 5] != 0x5C)
}

/// `s` is directory `dir` or lies under it (whole path components).
pub open spec fn under_dir(s: Seq<u8>, dir: Seq<u8>) -> bool {
    occurs_at(s, dir, 0) && (s.len() == dir.len() || s[dir.len() as int] == 0x2F)
}

/// The path is in a system directory: `/etc`, `/usr`, `/bin` or `/sbin` on
/// Unix-like hosts, `C:\Windows` or `C:\Program Files` (any case) on Windows.
pub open spec fn in_system_dir(s: Seq<u8>, os: HostOs) -> bool {
    if os == HostOs::Windows {
        starts_with_ci(s, "c:\\windows".spec_bytes()) || starts_with_ci(s, "c:\\program files".spec_bytes())
    } else {
        under_dir(s, "/etc".spec_bytes()) || under_dir(s, "/usr".spec_bytes()) || under_dir(s, "/bin".spec_bytes())
            || under_dir(s, "/sbin".spec_bytes())
    }
}

fn lower_byte(b: u8) -> (r: u8)
    ensures
        r == lower(b),
{
    if 65 <= b && b <= 90 {
        b + 32
    } else {
        b
    }
}

fn starts_with_ignore_case(s: &[u8], p: &[u8]) -> (r: bool)
    ensures
        r == starts_with_ci(s@, p@),
{
    if p.len() > s.len() {
        return false;
    }
    let mut i: usize = 0;
    while i < p.len()
        invariant
            p@.len() <= s@.len(),
            i <= p@.len(),
            forall|k: int| 0 <= k < i ==> lower(#[trigger] s@[k]) == lower(p@[k]),
        decreases p@.len() - i,
    {
        if lower_byte(s[i]) != lower_byte(p[i]) {
            return false;
        }
        i = i + 1;
    }
    true
}

fn is_under_dir(s: &[u8], dir: &[u8]) -> (r: bool)
    ensures
        r == under_dir(s@, dir@),
{
    crate::bytes::matches_at(s, dir, 0) && (s.len() == dir.len() || s[dir.len()] == 0x2F)
}

fn has_extension(s: &[u8], os: HostOs) -> (r: bool)
    ensures
        r == has_pdf_extension(s@, os),
{
    let n = s.len();
    n >= 5 && lower_byte(s[n - 4]) == 0x2E && lower_byte(s[n - 3]) == 0x70 && lower_byte(s[n - 2]) == 0x64
        && lower_byte(s[n - 1]) == 0x66 && s[n - 5] != 0x2F && (os != HostOs::Windows || s[n - 5] != 0x5C)
}

fn is_system_path(s: &[u8], os: HostOs) -> (r: bool)
    ensures
        r == in_system_dir(s@, os),
{
    if os == HostOs::Windows {
        starts_with_ignore_case(s, "c:\\windows".as_bytes()) || starts_with_ignore_case(s, "c:\\program files".as_bytes())
    } else {
        is_under_dir(s, "/etc".as_bytes()) || is_under_dir(s, "/usr".as_bytes()) || is_under_dir(s, "/bin".as_bytes())
            || is_under_dir(s, "/sbin".as_bytes())
    }
}

/// Checks the canonical path of a document to sign: it must have the `pdf`
/// extension and must not lie in a system directory.
pub fn validate_pdf_input_path(canonical: &str, os: HostOs) -> (r: Result<(), ESignError>)
    ensures
        r is Ok <==> has_pdf_extension(canonical.spec_bytes(), os) && !in_system_dir(canonical.spec_bytes(), os),
        r matches Err(e) ==> e is Pdf,
{
    let s = canonical.as_bytes();
    if !has_extension(s, os) {
        return Err(ESignError::Pdf(String::from_str("Not a PDF file: ").concat(canonical)));
    }
    if is_system_path(s, os) {
        return Err(ESignError::Pdf(String::from_str("Cannot read from system directory")));
    }
    Ok(())
}

/// Checks the path a signed document is written to: it must have the `pdf`
/// extension and must not lie in a system directory.
pub fn validate_pdf_output_path(path: &str, os: HostOs) -> (r: Result<(), ESignError>)
    ensures
        r is Ok <==> has_pdf_extension(path.spec_bytes(), os) && !in_system_dir(path.spec_bytes(), os),
        r matches Err(e) ==> e is Pdf,
{
    let s = path.as_bytes();
    if !has_extension(s, os) {
        return Err(ESignError::Pdf(String::from_str("Output must have .pdf extension: ").concat(path)));
    }
    if is_system_path(s, os) {
        return Err(ESignError::Pdf(String::from_str("Cannot write to system directory")));
    }
    Ok(())
}

} // verus!
