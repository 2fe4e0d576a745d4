//! RFC 3161 timestamp requests and responses, and the list of servers to try.
use vstd::prelude::*;
use crate::der::{
    append_bytes, build_octet_string, build_sequence, build_sha256_algorithm_identifier,
    build_tlv, length_header, parse_asn1_length, parse_tlv, sha256_algorithm_identifier, tlv,
};
use crate::error::ESignError;
use vstd::string::StringExecFns;

pub mod servers;

verus! {

/// Where to send timestamp requests, and how long to wait for each.
#[derive(Debug, Clone)]
pub struct TsaConfig {
    /// The first server tried.
    pub primary_url: String,
    /// Servers tried in order after the primary one fails.
    pub fallback_urls: Vec<String>,
    /// Timeout of each request, in seconds.
    pub timeout_secs: u64,
}

impl Default for TsaConfig {
    /// HTTPS endpoints first, HTTP fallbacks last, 30 seconds per attempt.
    fn default() -> (r: Self)
        ensures
            r.primary_url@ == servers::VNPT_HTTPS@,
            r.fallback_urls@.len() == 5,
            r.fallback_urls@[0]@ == servers::VIETTEL_HTTPS@,
            r.fallback_urls@[1]@ == servers::FPT_HTTPS@,
            r.fallback_urls@[2]@ == servers::VNPT_HTTP@,
            r.fallback_urls@[3]@ == servers::VIETTEL_HTTP@,
            r.fallback_urls@[4]@ == servers::FPT_HTTP@,
            r.timeout_secs == 30,
    {
        let mut fallback_urls: Vec<String> = Vec::new();
        fallback_urls.push(String::from_str(servers::VIETTEL_HTTPS));
        fallback_urls.push(String::from_str(servers::FPT_HTTPS));
        fallback_urls.push(String::from_str(servers::VNPT_HTTP));
        fallback_urls.push(String::from_str(servers::VIETTEL_HTTP));
        fallback_urls.push(String::from_str(servers::FPT_HTTP));
        TsaConfig { primary_url: String::from_str(servers::VNPT_HTTPS), fallback_urls, timeout_secs: 30 }
    }
}

/// The views of a list of strings.
pub open spec fn strings_view(v: Seq<String>) -> Seq<Seq<char>> {
    v.map_values(|s: String| s@)
}

impl TsaConfig {
    /// The servers in the order they are tried: the primary, then each
    /// fallback.
    pub fn candidate_urls(&self) -> (r: Vec<String>)
        ensures
            strings_view(r@) == seq![self.primary_url@] + strings_view(self.fallback_urls@),
    {
        let mut urls: Vec<String> = Vec::new();
        urls.push(self.primary_url.clone());
        let mut i: usize = 0;
        while i < self.fallback_urls.len()
            invariant
                i <= self.fallback_urls@.len(),
                strings_view(urls@) == seq![self.primary_url@] + strings_view(
                    self.fallback_urls@.subrange(0, i as int),
                ),
            decreases self.fallback_urls@.len() - i,
        {
            let ghost before = urls@;
            let u = self.fallback_urls[i].clone();
            urls.push(u);
            proof {
                assert(urls@ == before.push(u));
                assert(strings_view(urls@) =~= strings_view(before).push(u@));
                assert(self.fallback_urls@.subrange(0, i + 1) =~= self.fallback_urls@.subrange(0, i as int).push(self.fallback_urls@[i as int]));
                assert(strings_view(self.fallback_urls@.subrange(0, i + 1)) =~= strings_view(self.fallback_urls@.subrange(0, i as int)).push(self.fallback_urls@[i as int]@));
            }
            i = i + 1;
            assert(strings_view(urls@) =~= seq![self.primary_url@] + strings_view(
                self.fallback_urls@.subrange(0, i as int),
            ));
        }
        assert(self.fallback_urls@.subrange(0, i as int) =~= self.fallback_urls@);
        urls
    }
}

/// What the client does after asking one server for a timestamp.
#[derive(Debug)]
pub enum TsaStep {
    /// A token came back: stop with it.
    Done(Vec<u8>),
    /// This server failed and another remains: ask the next one.
    TryNext,
    /// The last server failed: stop with its error.
    GiveUp(ESignError),
}

/// The decision after one server's attempt, `is_last` telling whether it
/// was the last server of the list: a token ends the search, a failure
/// moves on to the next server, or ends it with that failure when none is
/// left.
pub fn tsa_step(outcome: Result<Vec<u8>, ESignError>, is_last: bool) -> (r: TsaStep)
    ensures
        match outcome {
            Ok(t) => r matches TsaStep::Done(tok) && tok@ == t@,
            Err(e) => if is_last {
                r == TsaStep::GiveUp(e)
            } else {
                r is TryNext
            },
        },
{
    match outcome {
        Ok(t) => TsaStep::Done(t),
        Err(e) => if is_last {
            TsaStep::GiveUp(e)
        } else {
            TsaStep::TryNext
        },
    }
}

/// Minimal big-endian octets of `n`; zero is a single zero octet.
pub open spec fn be_octets(n: nat) -> Seq<u8>
    decreases n,
{
    if n < 256 {
        seq![n as u8]
    } else {
        be_octets(n / 256) + seq![(n % 256) as u8]
    }
}

/// Appends the minimal big-endian octets of `n`.
fn push_be_octets(buf: &mut Vec<u8>, n: u64)
    ensures
        final(buf)@ == old(buf)@ + be_octets(n as nat),
        be_octets(n as nat).len() <= 8,
    decreases n,
{
    proof {
        lemma_be_octets_len(n as nat);
    }
    if n >= 256 {
        push_be_octets(buf, n / 256);
    }
    buf.push((n % 256) as u8);
    assert(final(buf)@ =~= old(buf)@ + be_octets(n as nat));
}

proof fn lemma_be_octets_len(n: nat)
    requires
        n <= u64::MAX,
    ensures
        be_octets(n).len() <= 8,
        n < 0x100_0000_0000_0000 ==> be_octets(n).len() <= 7,
        n < 0x1_0000_0000_0000 ==> be_octets(n).len() <= 6,
        n < 0x100_0000_0000 ==> be_octets(n).len() <= 5,
        n < 0x1_0000_0000 ==> be_octets(n).len() <= 4,
        n < 0x100_0000 ==> be_octets(n).len() <= 3,
        n < 0x1_0000 ==> be_octets(n).len() <= 2,
    decreases n,
{
    if n >= 256 {
        lemma_be_octets_len(n / 256);
    }
}

/// TimeStampReq version 1 for a SHA-256 hash, with a nonce and certReq TRUE.
pub open spec fn timestamp_request(hash: Seq<u8>, nonce: u64) -> Seq<u8> {
    tlv(
        0x30,
        seq![0x02u8, 0x01, 0x01] + tlv(0x30, sha256_algorithm_identifier() + tlv(0x04, hash)) + tlv(
            0x02,
            be_octets(nonce as nat),
        ) + seq![0x01u8, 0x01, 0xFF],
    )
}

/// Encodes an RFC 3161 TimeStampReq: version 1, the MessageImprint of
/// `hash` under SHA-256, the nonce with its leading zero octets stripped,
/// and certReq TRUE.
pub fn build_timestamp_request(hash: &[u8], nonce: u64) -> (r: Vec<u8>)
    requires
        hash@.len() <= 0x10_0000,
    ensures
        r@ == timestamp_request(hash@, nonce),
{
    let mut imprint = build_sha256_algorithm_identifier();
    let digest = build_octet_string(hash);
    append_bytes(&mut imprint, digest.as_slice());
    assert(imprint@.len() <= hash@.len() + 30);
    let mut content: Vec<u8> = vec![0x02, 0x01, 0x01];
    let mi = build_sequence(imprint.as_slice());
    append_bytes(&mut content, mi.as_slice());
    let mut nonce_bytes: Vec<u8> = Vec::new();
    push_be_octets(&mut nonce_bytes, nonce);
    let nonce_int = build_tlv(0x02, nonce_bytes.as_slice());
    append_bytes(&mut content, nonce_int.as_slice());
    content.push(0x01);
    content.push(0x01);
    content.push(0xFF);
    assert(content@ =~= seq![0x02u8, 0x01, 0x01] + tlv(0x30, sha256_algorithm_identifier() + tlv(0x04, hash@))
        + tlv(0x02, be_octets(nonce as nat)) + seq![0x01u8, 0x01, 0xFF]);
    build_sequence(content.as_slice())
}

/// Nanoseconds since the Unix epoch, or zero before it.
#[verifier::external_body]
pub(crate) fn clock_nanos() -> (r: u64) {
    std::time::SystemTime::now().duration_since(std::time::UNIX_EPOCH).unwrap_or_default().as_nanos() as u64
}

/// A TimeStampReq for `hash` whose nonce is taken from the clock.
pub fn fresh_timestamp_request(hash: &[u8]) -> (r: Vec<u8>)
    requires
        hash@.len() <= 0x10_0000,
    ensures
        exists|nonce: u64| r@ == timestamp_request(hash@, nonce),
{
    build_timestamp_request(hash, clock_nanos())
}

/// A PKIStatusInfo whose status INTEGER says rejection or worse (2 and up).
pub open spec fn status_rejected(status: Seq<u8>) -> bool {
    status.len() >= 3 && status[0] == 0x02 && status[2] > 1
}

/// The TimeStampToken of a TimeStampResp: after the outer SEQUENCE header,
/// a PKIStatusInfo SEQUENCE whose status is granted (0) or granted with
/// modifications (1), followed by the token, itself a SEQUENCE; `None`
/// otherwise.
pub open spec fn timestamp_token_of(resp: Seq<u8>) -> Option<Seq<u8>> {
    if resp.len() < 5 || resp[0] != 0x30 {
        None
    } else {
        match length_header(resp.drop_first()) {
            None => None,
            Some((h, _n)) => {
                let content = resp.subrange(1 + h as int, resp.len() as int);
                match parse_tlv(content) {
                    None => None,
                    Some((tag, status, after)) => {
                        if tag != 0x30 || status_rejected(status) {
                            None
                        } else {
                            match parse_tlv(after) {
                                None => None,
                                Some((t2, _body, rest)) => {
                                    if t2 != 0x30 {
                                        None
                                    } else {
                                        Some(after.subrange(0, after.len() - rest.len()))
                                    }
                                },
                            }
                        }
                    },
                }
            },
        }
    }
}

/// Splits one element off the front of `s`: its header length and content
/// length, checked to lie inside `s`.
fn split_element(s: &[u8]) -> (r: Option<(usize, usize)>)
    ensures
        match r {
            Some((h, n)) => s@.len() > 0 && length_header(s@.drop_first()) == Some((h as nat, n as nat))
                && 1 + h + n <= s@.len() && parse_tlv(s@) == Some((s@[0], s@.subrange(1 + h as int, 1 + h + n), s@.subrange(1 + h + n, s@.len() as int))),
            None => parse_tlv(s@) is None,
        },
{
    if s.len() == 0 {
        return None;
    }
    let rest = vstd::slice::slice_subrange(s, 1, s.len());
    assert(rest@ =~= s@.drop_first());
    match parse_asn1_length(rest) {
        Ok((h, n)) => {
            if h <= rest.len() && n <= rest.len() - h {
                Some((h, n))
            } else {
                None
            }
        },
        Err(_) => None,
    }
}

/// Extracts the TimeStampToken from an RFC 3161 TimeStampResp. A status of
/// rejection or worse, a missing token and any malformed framing are errors.
pub fn parse_timestamp_response(response: &[u8]) -> (r: Result<Vec<u8>, ESignError>)
    ensures
        match r {
            Ok(tok) => timestamp_token_of(response@) == Some(tok@),
            Err(e) => e is Tsa && timestamp_token_of(response@) is None,
        },
{
    if response.len() < 5 || response[0] != 0x30 {
        return Err(ESignError::Tsa(String::from_str("Invalid response: not a SEQUENCE")));
    }
    let tail = vstd::slice::slice_subrange(response, 1, response.len());
    assert(tail@ =~= response@.drop_first());
    let h = match parse_asn1_length(tail) {
        Ok((h, _n)) => h,
        Err(_) => {
            return Err(ESignError::Tsa(String::from_str("Invalid length encoding")));
        },
    };
    let content = vstd::slice::slice_subrange(response, 1 + h, response.len());
    let (sh, sn) = match split_element(content) {
        Some(hn) => hn,
        None => {
            return Err(ESignError::Tsa(String::from_str("Invalid PKIStatusInfo")));
        },
    };
    if content[0] != 0x30 {
        return Err(ESignError::Tsa(String::from_str("Invalid PKIStatusInfo")));
    }
    let status = vstd::slice::slice_subrange(content, 1 + sh, 1 + sh + sn);
    if status.len() >= 3 && status[0] == 0x02 && status[2] > 1 {
        return Err(ESignError::Tsa(String::from_str("TSA rejected the request")));
    }
    let after = vstd::slice::slice_subrange(content, 1 + sh + sn, content.len());
    let (th, tn) = match split_element(after) {
        Some(hn) => hn,
        None => {
            return Err(ESignError::Tsa(String::from_str("No TimeStampToken in response")));
        },
    };
    if after[0] != 0x30 {
        return Err(ESignError::Tsa(String::from_str("Invalid TimeStampToken")));
    }
    let token = vstd::slice::slice_subrange(after, 0, 1 + th + tn);
    proof {
        assert(after@.len() - after@.subrange(1 + th + tn, after@.len() as int).len() == 1 + th + tn);
    }
    Ok(crate::der::bytes_of(token))
}

} // verus!
