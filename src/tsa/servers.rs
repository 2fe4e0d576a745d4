//! Timestamp authority endpoints; HTTPS ones are preferred, HTTP ones are
//! last-resort fallbacks.
use vstd::prelude::*;
use crate::bytes::matches_at;
use vstd::string::StringSliceAdditionalSpecFns;

verus! {

/// VNPT timestamp authority over HTTPS.
pub const VNPT_HTTPS: &'static str = "https://ca.vnpt.vn/tsa";

/// VNPT timestamp authority over plain HTTP.
pub const VNPT_HTTP: &'static str = "http://ca.vnpt.vn/tsa";

/// Viettel timestamp authority over HTTPS.
pub const VIETTEL_HTTPS: &'static str = "https://tsa.viettel-ca.vn";

/// Viettel timestamp authority over plain HTTP.
pub const VIETTEL_HTTP: &'static str = "http://tsa.viettel-ca.vn";

/// FPT timestamp authority over HTTPS.
pub const FPT_HTTPS: &'static str = "https://tsa.fpt.vn";

/// FPT timestamp authority over plain HTTP.
pub const FPT_HTTP: &'static str = "http://tsa.fpt.vn";

/// The bytes of `http://`.
pub open spec fn http_prefix() -> Seq<u8> {
    seq![0x68u8, 0x74, 0x74, 0x70, 0x3A, 0x2F, 0x2F]
}

/// Whether `url` uses plain, unencrypted HTTP: it starts with `http://`.
pub fn is_insecure(url: &str) -> (r: bool)
    ensures
        r == (url.spec_bytes().len() >= 7 && url.spec_bytes().subrange(0, 7) == http_prefix()),
{
    let prefix: [u8; 7] = [0x68, 0x74, 0x74, 0x70, 0x3A, 0x2F, 0x2F];
    assert(prefix@ =~= http_prefix());
    matches_at(url.as_bytes(), &prefix, 0)
}

} // verus!
