//! Network addresses as plain values, and the choice among the candidates
//! that a resolver returned.

use vstd::prelude::*;
use crate::search::{first_index, is_first, lemma_first_exists, lemma_first_index_is, lemma_first_index_none};

verus! {

/// A socket address: the IP address as the integer that its bytes spell in
/// network order, and the port.
#[derive(Clone, Copy, Debug, PartialEq, Eq, Structural)]
pub enum SocketAddress {
    V4 { octets: u32, port: u16 },
    V6 { segments: u128, port: u16 },
}

impl SocketAddress {
    pub open spec fn spec_is_ipv4(&self) -> bool {
        *self is V4
    }

    /// Whether this is an IPv4 address.
    #[verifier::when_used_as_spec(spec_is_ipv4)]
    pub fn is_ipv4(&self) -> (b: bool)
        ensures
            b == (*self is V4),
    {
        match self {
            SocketAddress::V4 { .. } => true,
            SocketAddress::V6 { .. } => false,
        }
    }

    /// The port of either family.
    pub fn port(&self) -> (p: u16)
        ensures
            p == match *self {
                SocketAddress::V4 { port, .. } => port,
                SocketAddress::V6 { port, .. } => port,
            },
    {
        match self {
            SocketAddress::V4 { port, .. } => *port,
            SocketAddress::V6 { port, .. } => *port,
        }
    }
}

/// The local address that a client's endpoint is bound to: the IPv4
/// wildcard address, with port 0 for a port of the system's choosing.
pub fn local_bind_address() -> (a: SocketAddress)
    ensures
        a == (SocketAddress::V4 { octets: 0, port: 0 }),
{
    SocketAddress::V4 { octets: 0, port: 0 }
}

/// The first IPv4 address among the candidates, in the resolver's order.
/// IPv6 candidates are passed over on purpose: a host with none but those
/// has no usable address.
pub open spec fn first_ipv4(candidates: Seq<SocketAddress>) -> Option<SocketAddress> {
    match first_index(candidates, |a: SocketAddress| a is V4) {
        Some(i) => Some(candidates[i]),
        None => None,
    }
}

/// Picks the address to connect to: the first IPv4 candidate, or `None`
/// where there is none.
pub fn select_address(candidates: &Vec<SocketAddress>) -> (chosen: Option<SocketAddress>)
    ensures
        chosen == first_ipv4(candidates@),
{
    let ghost p = |a: SocketAddress| a is V4;
    let mut i: usize = 0;
    while i < candidates.len()
        invariant
            i <= candidates.len(),
            p == (|a: SocketAddress| a is V4),
            forall|j: int| 0 <= j < i ==> !p(#[trigger] candidates@[j]),
        decreases candidates.len() - i,
    {
        let candidate = candidates[i];
        if candidate.is_ipv4() {
            proof {
                assert(is_first(candidates@, p, i as int));
                lemma_first_index_is(candidates@, p, i as int);
            }
            return Some(candidate);
        }
        i += 1;
    }
    proof {
        lemma_first_index_none(candidates@, p);
    }
    None
}

/// A selected address is an IPv4 address, and one of the candidates.
pub proof fn lemma_selected_is_ipv4(candidates: Seq<SocketAddress>)
    requires
        first_ipv4(candidates) is Some,
    ensures
        first_ipv4(candidates)->0 is V4,
        candidates.contains(first_ipv4(candidates)->0),
{
    let p = |a: SocketAddress| a is V4;
    let i = choose|i: int| is_first(candidates, p, i);
    assert(is_first(candidates, p, i));
    assert(candidates[i] == first_ipv4(candidates)->0);
}

/// Selection is a function of the candidate list alone, and whenever some
/// candidate is IPv4 it yields an IPv4 address: the one that stands before
/// every other IPv4 candidate.
pub proof fn lemma_selection_prefers_ipv4(candidates: Seq<SocketAddress>, k: int)
    requires
        0 <= k < candidates.len(),
        candidates[k] is V4,
    ensures
        first_ipv4(candidates) is Some,
        first_ipv4(candidates)->0 is V4,
        exists|i: int|
            0 <= i <= k && candidates[i] == first_ipv4(candidates)->0 && forall|j: int|
                0 <= j < i ==> !(#[trigger] candidates[j] is V4),
{
    let p = |a: SocketAddress| a is V4;
    lemma_first_exists(candidates, p, k);
    let i = choose|i: int| is_first(candidates, p, i) && i <= k;
    lemma_first_index_is(candidates, p, i);
}

/// Selection looks no further than the first IPv4 candidate: two answers of
/// a resolver that agree up to and including it select the same address,
/// and so do two equal answers.
pub proof fn lemma_selection_is_stable(a: Seq<SocketAddress>, b: Seq<SocketAddress>, k: int)
    requires
        0 <= k < a.len(),
        k < b.len(),
        a[k] is V4,
        forall|j: int| 0 <= j <= k ==> a[j] == b[j],
    ensures
        first_ipv4(a) == first_ipv4(b),
{
    let p = |x: SocketAddress| x is V4;
    lemma_first_exists(a, p, k);
    let i = choose|i: int| is_first(a, p, i) && i <= k;
    lemma_first_index_is(a, p, i);
    assert(is_first(b, p, i)) by {
        assert(b[i] == a[i]);
        assert forall|j: int| 0 <= j < i implies !p(#[trigger] b[j]) by {
            assert(b[j] == a[j]);
        }
    }
    lemma_first_index_is(b, p, i);
}

/// A list without an IPv4 candidate yields no address, whatever else it holds.
pub proof fn lemma_selection_rejects_ipv6_only(candidates: Seq<SocketAddress>)
    requires
        forall|j: int| 0 <= j < candidates.len() ==> !(#[trigger] candidates[j] is V4),
    ensures
        first_ipv4(candidates) is None,
{
    lemma_first_index_none(candidates, |a: SocketAddress| a is V4);
}

} // verus!
