//! The name that the peer's certificate must be valid for.

use vstd::prelude::*;
use vstd::std_specs::iter::IteratorSpec;
use crate::error::ConnectionError;
use crate::search::{
    first_index, is_first, lemma_first_exists, lemma_first_index_is, lemma_first_index_none,
};

verus! {

/// What stands before the first `:` of the endpoint; `None` where it has no `:`.
pub open spec fn host_part(endpoint: Seq<char>) -> Option<Seq<char>> {
    match first_index(endpoint, |c: char| c == ':') {
        Some(i) => Some(endpoint.take(i)),
        None => None,
    }
}

/// The identity name of an attempt: the explicit name where one is given and
/// not empty, else the endpoint's host part. It is never empty: an endpoint
/// without `:`, or with nothing before it, has none.
pub open spec fn identity_name(endpoint: Seq<char>, server_name: Option<Seq<char>>) -> Option<
    Seq<char>,
> {
    if server_name is Some && server_name->0.len() > 0 {
        server_name
    } else if host_part(endpoint) is Some && host_part(endpoint)->0.len() > 0 {
        host_part(endpoint)
    } else {
        None
    }
}

/// The characters of an optional string.
pub open spec fn name_view(name: Option<String>) -> Option<Seq<char>> {
    match name {
        Some(s) => Some(s@),
        None => None,
    }
}

/// The host part of an endpoint string.
pub fn host_of(endpoint: &str) -> (host: Option<String>)
    ensures
        name_view(host) == host_part(endpoint@),
{
    let ghost p = |c: char| c == ':';
    let n: usize = endpoint.unicode_len();
    let mut rest = endpoint.chars();
    let mut i: usize = 0;
    while i < n
        invariant
            n == endpoint@.len(),
            i <= n,
            p == (|c: char| c == ':'),
            rest.remaining() == endpoint@.skip(i as int),
            forall|j: int| 0 <= j < i ==> !p(#[trigger] endpoint@[j]),
        decreases n - i,
    {
        let next = rest.next();
        assert(next == Some(endpoint@[i as int]));
        if next == Some(':') {
            let host = endpoint.substring_char(0, i);
            proof {
                assert(is_first(endpoint@, p, i as int));
                lemma_first_index_is(endpoint@, p, i as int);
            }
            return Some(host.to_owned());
        }
        proof {
            assert(endpoint@.skip(i as int).drop_first() =~= endpoint@.skip(i as int + 1));
        }
        i += 1;
    }
    proof {
        lemma_first_index_none(endpoint@, p);
    }
    None
}

/// Determines the identity name: `server_name` where it is given and not
/// empty, whatever the endpoint; else the endpoint's host part; and
/// `IdentityInference` where neither is there.
pub fn infer_identity(endpoint: &str, server_name: &Option<String>) -> (r: Result<
    String,
    ConnectionError,
>)
    ensures
        match r {
            Ok(name) => identity_name(endpoint@, name_view(*server_name)) == Some(name@),
            Err(e) => identity_name(endpoint@, name_view(*server_name)) is None
                && e == ConnectionError::IdentityInference,
        },
{
    if let Some(name) = server_name {
        if !name.as_str().is_empty() {
            return Ok(name.clone());
        }
    }
    match host_of(endpoint) {
        Some(host) => {
            if host.as_str().is_empty() {
                Err(ConnectionError::IdentityInference)
            } else {
                Ok(host)
            }
        },
        None => Err(ConnectionError::IdentityInference),
    }
}

/// An explicit name that is not empty is the identity, whatever the
/// endpoint string holds.
pub proof fn lemma_explicit_name_takes_precedence(endpoint: Seq<char>, name: Seq<char>)
    requires
        name.len() > 0,
    ensures
        identity_name(endpoint, Some(name)) == Some(name),
{
}

/// Without a usable explicit name, an endpoint that holds a `:` somewhere
/// and not in front gets as its identity what stands before its first `:`.
pub proof fn lemma_identity_is_prefix_before_first_colon(
    endpoint: Seq<char>,
    server_name: Option<Seq<char>>,
)
    requires
        server_name is None || server_name->0.len() == 0,
        endpoint.contains(':'),
        endpoint[0] != ':',
    ensures
        identity_name(endpoint, server_name) is Some,
        exists|i: int|
            0 < i < endpoint.len() && endpoint[i] == ':' && identity_name(endpoint, server_name)
                == Some(endpoint.take(i)) && forall|j: int|
                0 <= j < i ==> #[trigger] endpoint[j] != ':',
{
    let p = |c: char| c == ':';
    let k = choose|k: int| 0 <= k < endpoint.len() && endpoint[k] == ':';
    lemma_first_exists(endpoint, p, k);
    let i = choose|i: int| is_first(endpoint, p, i) && i <= k;
    lemma_first_index_is(endpoint, p, i);
    assert(endpoint.take(i).len() == i);
    assert forall|j: int| 0 <= j < i implies #[trigger] endpoint[j] != ':' by {
        assert(!p(endpoint[j]));
    }
}

/// Without a usable explicit name, an endpoint without a `:` has no
/// identity, and neither has one that begins with a `:`.
pub proof fn lemma_no_host_no_identity(endpoint: Seq<char>, server_name: Option<Seq<char>>)
    requires
        server_name is None || server_name->0.len() == 0,
        !endpoint.contains(':') || endpoint[0] == ':',
    ensures
        identity_name(endpoint, server_name) is None,
{
    let p = |c: char| c == ':';
    if !endpoint.contains(':') {
        assert forall|j: int| 0 <= j < endpoint.len() implies !p(#[trigger] endpoint[j]) by {
            if endpoint[j] == ':' {
                assert(endpoint.contains(':'));
            }
        }
        lemma_first_index_none(endpoint, p);
    } else {
        let k = choose|k: int| 0 <= k < endpoint.len() && endpoint[k] == ':';
        assert(is_first(endpoint, p, 0));
        lemma_first_index_is(endpoint, p, 0);
        assert(endpoint.take(0).len() == 0);
    }
}

/// An identity name is never empty.
pub proof fn lemma_identity_never_empty(endpoint: Seq<char>, server_name: Option<Seq<char>>)
    ensures
        identity_name(endpoint, server_name) is Some ==> identity_name(
            endpoint,
            server_name,
        )->0.len() > 0,
{
}

} // verus!
