//! Ordering the certificates found on a token into a chain that starts at
//! the end-entity certificate, by matching issuer names to subject names.
use vstd::prelude::*;
use crate::der::bytes_of;
use crate::x509::{cert_names, x509_names};

verus! {

/// Longest run of issuers followed from the end-entity certificate.
pub const MAX_CHAIN_LENGTH: usize = 10;

/// Whether two byte strings are equal.
pub fn bytes_equal(a: &[u8], b: &[u8]) -> (r: bool)
    ensures
        r == (a@ == b@),
{
    if a.len() != b.len() {
        return false;
    }
    let mut i: usize = 0;
    while i < a.len()
        invariant
            a@.len() == b@.len(),
            i <= a@.len(),
            forall|k: int| 0 <= k < i ==> a@[k] == b@[k],
        decreases a@.len() - i,
    {
        if a[i] != b[i] {
            return false;
        }
        i = i + 1;
    }
    assert(a@ =~= b@);
    true
}

/// Certificate `i` of `all` differs from `cur` and its subject is `issuer`.
pub open spec fn is_issuer_candidate(all: Seq<Seq<u8>>, cur: Seq<u8>, issuer: Seq<u8>, i: int) -> bool {
    &&& 0 <= i < all.len()
    &&& all[i] != cur
    &&& x509_names(all[i]) matches Some((_i, s, _n)) && s == issuer
}

/// Certificate `i` is the first issuer candidate.
pub open spec fn is_first_issuer(all: Seq<Seq<u8>>, cur: Seq<u8>, issuer: Seq<u8>, i: int) -> bool {
    is_issuer_candidate(all, cur, issuer, i) && forall|j: int| 0 <= j < i ==> !is_issuer_candidate(all, cur, issuer, j)
}

/// The certificate that issued `cur`, when `cur` parses, is not self-signed,
/// and some other certificate of `all` has its issuer as subject: the first
/// such one.
pub open spec fn issuer_step(all: Seq<Seq<u8>>, cur: Seq<u8>) -> Option<Seq<u8>> {
    match x509_names(cur) {
        None => None,
        Some((issuer, subject, _serial)) => if issuer == subject {
            None
        } else if exists|i: int| #[trigger] is_first_issuer(all, cur, issuer, i) {
            Some(all[choose|i: int| #[trigger] is_first_issuer(all, cur, issuer, i)])
        } else {
            None
        },
    }
}

/// The issuers followed from `cur`, at most `hops` of them.
pub open spec fn issuers_from(all: Seq<Seq<u8>>, cur: Seq<u8>, hops: nat) -> Seq<Seq<u8>>
    decreases hops,
{
    if hops == 0 {
        Seq::empty()
    } else {
        match issuer_step(all, cur) {
            None => Seq::empty(),
            Some(next) => seq![next] + issuers_from(all, next, (hops - 1) as nat),
        }
    }
}

/// The views of a list of byte strings.
pub open spec fn certs_view(v: Seq<Vec<u8>>) -> Seq<Seq<u8>> {
    v.map_values(|c: Vec<u8>| c@)
}

/// The next certificate of the chain after `cur`.
fn find_issuer(all: &Vec<Vec<u8>>, cur: &[u8]) -> (r: Option<usize>)
    ensures
        match r {
            Some(i) => i < all@.len() && issuer_step(certs_view(all@), cur@) == Some(all@[i as int]@),
            None => issuer_step(certs_view(all@), cur@) is None,
        },
{
    let ghost av = certs_view(all@);
    let names = match cert_names(cur) {
        Some(n) => n,
        None => {
            return None;
        },
    };
    if bytes_equal(names.issuer.as_slice(), names.subject.as_slice()) {
        return None;
    }
    let ghost issuer = names.issuer@;
    let mut i: usize = 0;
    while i < all.len()
        invariant
            av == certs_view(all@),
            issuer == names.issuer@,
            x509_names(cur@) == Some((names.issuer@, names.subject@, names.serial@)),
            names.issuer@ != names.subject@,
            i <= all@.len(),
            forall|j: int| 0 <= j < i ==> !is_issuer_candidate(av, cur@, issuer, j),
        decreases all@.len() - i,
    {
        let cand = &all[i];
        if !bytes_equal(cand.as_slice(), cur) {
            match cert_names(cand.as_slice()) {
                Some(cn) => {
                    if bytes_equal(cn.subject.as_slice(), names.issuer.as_slice()) {
                        proof {
                            assert(av[i as int] == cand@);
                            assert(is_issuer_candidate(av, cur@, issuer, i as int));
                            assert(is_first_issuer(av, cur@, issuer, i as int));
                            let c = choose|k: int| #[trigger] is_first_issuer(av, cur@, issuer, k);
                            assert(c == i) by {
                                if c < i {
                                } else if c > i {
                                    assert(!is_issuer_candidate(av, cur@, issuer, i as int));
                                }
                            }
                            assert(x509_names(cur@) == Some((names.issuer@, names.subject@, names.serial@)));
                            assert(names.issuer@ != names.subject@);
                            assert(exists|k: int| #[trigger] is_first_issuer(av, cur@, issuer, k));
                            assert(issuer_step(av, cur@) == Some(av[i as int]));
                        }
                        return Some(i);
                    }
                },
                None => {},
            }
        }
        i = i + 1;
    }
    None
}

/// Orders a best-effort chain: the end-entity certificate, then its issuer
/// found among `all_certs`, then that one's issuer, and so on; it stops at a
/// self-signed certificate, at one whose issuer is not on the token or does
/// not parse, or after `MAX_CHAIN_LENGTH` issuers.
pub fn build_certificate_chain(end_entity: &[u8], all_certs: &Vec<Vec<u8>>) -> (r: Vec<Vec<u8>>)
    ensures
        certs_view(r@) == seq![end_entity@] + issuers_from(certs_view(all_certs@), end_entity@, MAX_CHAIN_LENGTH as nat),
{
    let ghost all = certs_view(all_certs@);
    let ghost target = seq![end_entity@] + issuers_from(all, end_entity@, MAX_CHAIN_LENGTH as nat);
    let mut chain: Vec<Vec<u8>> = Vec::new();
    chain.push(bytes_of(end_entity));
    let mut k: usize = 0;
    assert(certs_view(chain@) =~= seq![end_entity@]);
    while k < MAX_CHAIN_LENGTH
        invariant
            all == certs_view(all_certs@),
            target == seq![end_entity@] + issuers_from(all, end_entity@, MAX_CHAIN_LENGTH as nat),
            k <= MAX_CHAIN_LENGTH,
            chain@.len() >= 1,
            certs_view(chain@) + issuers_from(all, chain@.last()@, (MAX_CHAIN_LENGTH - k) as nat) == target,
        decreases MAX_CHAIN_LENGTH - k,
    {
        let last = chain.len() - 1;
        let ghost before = chain@;
        match find_issuer(all_certs, chain[last].as_slice()) {
            Some(i) => {
                let next = bytes_of(all_certs[i].as_slice());
                chain.push(next);
                proof {
                    assert(chain@ == before.push(next));
                    assert(certs_view(chain@) =~= certs_view(before) + seq![next@]);
                    assert(issuers_from(all, before.last()@, (MAX_CHAIN_LENGTH - k) as nat) == seq![next@]
                        + issuers_from(all, next@, (MAX_CHAIN_LENGTH - k - 1) as nat));
                    assert(chain@.last() == next);
                }
                k = k + 1;
            },
            None => {
                proof {
                    assert(issuers_from(all, chain@.last()@, (MAX_CHAIN_LENGTH - k) as nat) =~= Seq::<Seq<u8>>::empty());
                    assert(certs_view(chain@) =~= target);
                }
                return chain;
            },
        }
    }
    assert(certs_view(chain@) =~= target);
    chain
}

} // verus!
