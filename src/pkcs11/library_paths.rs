//! Where the certificate authorities install their PKCS#11 libraries, and
//! which locations a library may be loaded from, per host system.
use vstd::prelude::*;

verus! {

/// The host operating system, which decides library locations.
#[derive(Debug, Clone, Copy, PartialEq, Eq, Structural)]
pub enum HostOs {
    MacOs,
    Windows,
    Linux,
    /// Another Unix-like system.
    Other,
}

/// VNPT-CA's library.
pub open spec fn vnpt_path(os: HostOs) -> &'static str {
    match os {
        HostOs::MacOs => "/Library/vnpt-ca/lib/libcryptoki.dylib",
        HostOs::Windows => "C:\\vnpt-ca\\cryptoki.dll",
        _ => "/usr/lib/vnpt-ca/libcryptoki.so",
    }
}

/// VNPT-CA's library.
pub fn vnpt(os: HostOs) -> (r: &'static str)
    ensures
        r == vnpt_path(os),
{
    match os {
        HostOs::MacOs => "/Library/vnpt-ca/lib/libcryptoki.dylib",
        HostOs::Windows => "C:\\vnpt-ca\\cryptoki.dll",
        _ => "/usr/lib/vnpt-ca/libcryptoki.so",
    }
}

/// Viettel-CA's library.
pub open spec fn viettel_path(os: HostOs) -> &'static str {
    match os {
        HostOs::MacOs => "/usr/local/lib/viettel-ca_v6.dylib",
        HostOs::Windows => "C:\\Viettel-CA\\pkcs11.dll",
        _ => "/usr/lib/viettel-ca/libpkcs11.so",
    }
}

/// Viettel-CA's library.
pub fn viettel(os: HostOs) -> (r: &'static str)
    ensures
        r == viettel_path(os),
{
    match os {
        HostOs::MacOs => "/usr/local/lib/viettel-ca_v6.dylib",
        HostOs::Windows => "C:\\Viettel-CA\\pkcs11.dll",
        _ => "/usr/lib/viettel-ca/libpkcs11.so",
    }
}

/// FPT-CA's library.
pub open spec fn fpt_path(os: HostOs) -> &'static str {
    match os {
        HostOs::MacOs => "/Library/FPT/libpkcs11.dylib",
        HostOs::Windows => "C:\\FPT-CA\\pkcs11.dll",
        _ => "/usr/lib/fpt-ca/libpkcs11.so",
    }
}

/// FPT-CA's library.
pub fn fpt(os: HostOs) -> (r: &'static str)
    ensures
        r == fpt_path(os),
{
    match os {
        HostOs::MacOs => "/Library/FPT/libpkcs11.dylib",
        HostOs::Windows => "C:\\FPT-CA\\pkcs11.dll",
        _ => "/usr/lib/fpt-ca/libpkcs11.so",
    }
}

/// OpenSC's generic library (ePass2003, Feitian and other tokens).
pub open spec fn opensc_path(os: HostOs) -> &'static str {
    match os {
        HostOs::MacOs => "/usr/local/lib/opensc-pkcs11.so",
        HostOs::Windows => "C:\\Program Files\\OpenSC Project\\OpenSC\\pkcs11\\opensc-pkcs11.dll",
        _ => "/usr/lib/x86_64-linux-gnu/opensc-pkcs11.so",
    }
}

/// OpenSC's generic library (ePass2003, Feitian and other tokens).
pub fn opensc(os: HostOs) -> (r: &'static str)
    ensures
        r == opensc_path(os),
{
    match os {
        HostOs::MacOs => "/usr/local/lib/opensc-pkcs11.so",
        HostOs::Windows => "C:\\Program Files\\OpenSC Project\\OpenSC\\pkcs11\\opensc-pkcs11.dll",
        _ => "/usr/lib/x86_64-linux-gnu/opensc-pkcs11.so",
    }
}

/// Every known library, as (authority name, path), in detection order.
pub fn all_paths(os: HostOs) -> (r: Vec<(&'static str, &'static str)>)
    ensures
        r@.len() == 4,
        r@[0] == ("VNPT-CA", vnpt_path(os)),
        r@[1] == ("Viettel-CA", viettel_path(os)),
        r@[2] == ("FPT-CA", fpt_path(os)),
        r@[3] == ("OpenSC (Generic PKCS#11)", opensc_path(os)),
{
    vec![
        ("VNPT-CA", vnpt(os)),
        ("Viettel-CA", viettel(os)),
        ("FPT-CA", fpt(os)),
        ("OpenSC (Generic PKCS#11)", opensc(os)),
    ]
}

/// Directories a provider library may be loaded from.
pub open spec fn allowed_prefixes_spec(os: HostOs) -> Seq<&'static str> {
    match os {
        HostOs::MacOs => seq!["/Library/", "/usr/local/lib/"],
        HostOs::Windows => seq![
            "C:\\Program Files\\",
            "C:\\Program Files (x86)\\",
            "C:\\vnpt-ca\\",
            "C:\\Viettel-CA\\",
            "C:\\FPT-CA\\",
        ],
        HostOs::Linux => seq!["/usr/lib/", "/usr/local/lib/", "/opt/"],
        HostOs::Other => seq!["/usr/lib/"],
    }
}

/// Directories a provider library may be loaded from.
pub fn allowed_prefixes(os: HostOs) -> (r: Vec<&'static str>)
    ensures
        r@ == allowed_prefixes_spec(os),
{
    let r: Vec<&'static str> = match os {
        HostOs::MacOs => vec!["/Library/", "/usr/local/lib/"],
        HostOs::Windows => vec![
            "C:\\Program Files\\",
            "C:\\Program Files (x86)\\",
            "C:\\vnpt-ca\\",
            "C:\\Viettel-CA\\",
            "C:\\FPT-CA\\",
        ],
        HostOs::Linux => vec!["/usr/lib/", "/usr/local/lib/", "/opt/"],
        HostOs::Other => vec!["/usr/lib/"],
    };
    assert(r@ =~= allowed_prefixes_spec(os));
    r
}

/// The dynamic-library extension of the host.
pub open spec fn library_extension_spec(os: HostOs) -> &'static str {
    match os {
        HostOs::MacOs => ".dylib",
        HostOs::Windows => ".dll",
        _ => ".so",
    }
}

/// The dynamic-library extension of the host.
pub fn library_extension(os: HostOs) -> (r: &'static str)
    ensures
        r == library_extension_spec(os),
{
    match os {
        HostOs::MacOs => ".dylib",
        HostOs::Windows => ".dll",
        _ => ".so",
    }
}

} // verus!
