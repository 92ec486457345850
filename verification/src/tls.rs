//! Trust policies and their resolution into what the handshake verifies
//! against.
//!
//! PEM decoding is `pem`'s and trust-anchor parsing is `rustls`'s. Their
//! results are named here, not restated: the contracts of this module say
//! what the library does with them.

use vstd::prelude::*;
use vstd::utf8::encode_utf8;
use crate::error::ConstructionError;

verus! {

/// `rustls::RootCertStore`, opaque: the contracts speak of what it holds
/// through `store_anchors`.
#[verifier::external_type_specification]
#[verifier::external_body]
pub struct ExRootCertStore(rustls::RootCertStore);

/// `rustls::Error`, opaque: carried to the caller as the cause of a failure.
#[verifier::external_type_specification]
#[verifier::external_body]
pub struct ExTlsError(rustls::Error);

/// `pem::PemError`, opaque: carried to the caller as the cause of a failure.
#[verifier::external_type_specification]
#[verifier::external_body]
pub struct ExPemError(pem::PemError);

/// `rustls::client::ServerCertVerified`, opaque: a token without contents.
#[verifier::external_type_specification]
#[verifier::external_body]
pub struct ExServerCertVerified(rustls::client::ServerCertVerified);

/// The contents of the first PEM block of `input` as `pem::parse` decodes
/// them; `None` where it reports an error.
pub uninterp spec fn pem_contents(input: Seq<u8>) -> Option<Seq<u8>>;

/// What `rustls::RootCertStore::add` keeps of the certificate `der` as its
/// trust anchor: the subject, the subject's public key info and the name
/// constraints, in this order; `None` where the bytes do not parse as an
/// X.509 certificate and `add` fails. Serial number, issuer, validity and
/// signature are not kept, so two certificates may have one anchor.
pub uninterp spec fn trust_anchor_of(der: Seq<u8>) -> Option<
    (Seq<u8>, Seq<u8>, Option<Seq<u8>>),
>;

/// The trust anchors that a store holds, oldest first, each as subject,
/// public key info and name constraints.
pub uninterp spec fn store_anchors(store: rustls::RootCertStore) -> Seq<
    (Seq<u8>, Seq<u8>, Option<Seq<u8>>),
>;

/// Whether a store takes `der` as a trust anchor. It does whenever the bytes
/// parse as a certificate: nothing else about it is examined.
pub open spec fn is_trust_anchor(der: Seq<u8>) -> bool {
    trust_anchor_of(der) is Some
}

/// `pem::parse`, followed by `Pem::into_contents`: the decoded contents of
/// the first PEM block of the input, or the parser's error. Unproved: that
/// the outcome is the one `pem_contents` names.
#[verifier::external_body]
fn parse_pem(input: &[u8]) -> (r: Result<Vec<u8>, pem::PemError>)
    ensures
        match r {
            Ok(contents) => pem_contents(input@) == Some(contents@),
            Err(_) => pem_contents(input@) is None,
        },
{
    match pem::parse(input) {
        Ok(block) => Ok(block.into_contents()),
        Err(e) => Err(e),
    }
}

/// `rustls::RootCertStore::empty`: a store that holds no anchor.
pub assume_specification[ rustls::RootCertStore::empty ]() -> (store: rustls::RootCertStore)
    ensures
        store_anchors(store).len() == 0,
;

/// `rustls::RootCertStore::add`, on a `rustls::Certificate` made of `der`.
/// Unproved: that it succeeds exactly where `trust_anchor_of` names an
/// anchor, appends that anchor on success and leaves the store alone on
/// failure.
#[verifier::external_body]
fn add_anchor(store: &mut rustls::RootCertStore, der: Vec<u8>) -> (r: Result<(), rustls::Error>)
    ensures
        r is Ok <==> trust_anchor_of(der@) is Some,
        r is Ok ==> store_anchors(*final(store)) == store_anchors(*old(store)).push(
            trust_anchor_of(der@)->0,
        ),
        r is Err ==> store_anchors(*final(store)) == store_anchors(*old(store)),
{
    store.add(&rustls::Certificate(der))
}

/// `rustls::client::ServerCertVerified::assertion`: the token by which a
/// verifier says that it accepts a certificate. It carries nothing.
pub assume_specification[ rustls::client::ServerCertVerified::assertion ]() -> (token:
    rustls::client::ServerCertVerified)
;

/// How the peer's certificate is to be judged. A client has exactly one
/// policy, chosen when it is made.
#[derive(Clone, Debug, PartialEq, Eq)]
pub enum TrustPolicy {
    /// Trust the platform's certificate authorities.
    SystemRoots,
    /// Trust the one PEM certificate in the file at this path, and no other.
    CustomAuthority(String),
    /// Accept whatever certificate is presented. For diagnosis only.
    Insecure,
}

impl TrustPolicy {
    /// The policy that a caller's options ask for. Skipping verification
    /// takes an explicit `insecure`; a path is read only without it.
    pub open spec fn spec_from_options(ca_cert_path: Option<String>, insecure: bool) -> TrustPolicy {
        if insecure {
            TrustPolicy::Insecure
        } else {
            match ca_cert_path {
                Some(path) => TrustPolicy::CustomAuthority(path),
                None => TrustPolicy::SystemRoots,
            }
        }
    }

    pub fn from_options(ca_cert_path: &Option<String>, insecure: bool) -> (policy: TrustPolicy)
        ensures
            policy == Self::spec_from_options(*ca_cert_path, insecure),
    {
        if insecure {
            TrustPolicy::Insecure
        } else {
            match ca_cert_path {
                Some(path) => TrustPolicy::CustomAuthority(path.clone()),
                None => TrustPolicy::SystemRoots,
            }
        }
    }

    /// The file that has to be read before this policy can be resolved.
    pub fn authority_path(&self) -> (path: Option<&String>)
        ensures
            path is Some <==> *self is CustomAuthority,
            path is Some ==> *path->0 == self->CustomAuthority_0,
    {
        match self {
            TrustPolicy::CustomAuthority(path) => Some(path),
            _ => None,
        }
    }

    /// Whether the peer's certificate is checked at all under this policy.
    pub fn verifies_peer(&self) -> (b: bool)
        ensures
            b == !(*self is Insecure),
    {
        match self {
            TrustPolicy::Insecure => false,
            _ => true,
        }
    }
}

impl Default for TrustPolicy {
    /// Verification against the platform's roots: never `Insecure`.
    fn default() -> (policy: TrustPolicy)
        ensures
            policy is SystemRoots,
    {
        TrustPolicy::SystemRoots
    }
}

/// What the caller found at the path of a custom authority.
#[derive(Clone, Debug, PartialEq, Eq)]
pub enum AuthorityFile {
    /// No file was read.
    Absent,
    /// The file could not be read as text; the string says why.
    Unreadable(String),
    /// The file's text.
    Text(String),
}

/// What the caller found of the platform's root store.
#[derive(Clone, Debug, PartialEq, Eq)]
pub enum PlatformRoots {
    /// The store can be had, or nothing is known against it.
    Available,
    /// The store could not be read; the string says why.
    Unavailable(String),
}

/// A policy made concrete: what the handshake verifies against.
#[derive(Debug)]
pub enum TrustConfig {
    /// The platform's roots, which the transport loads itself.
    SystemRoots,
    /// A store that holds the one custom authority.
    CustomAuthority(rustls::RootCertStore),
    /// No verification: see `SkipServerCertVerify`.
    Insecure,
}

impl TrustConfig {
    /// Whether the peer's certificate is checked at all.
    pub fn verifies_peer(&self) -> (b: bool)
        ensures
            b == !(*self is Insecure),
    {
        match self {
            TrustConfig::Insecure => false,
            _ => true,
        }
    }
}

/// The bytes of the certificate in a PEM text: the contents of its first
/// block.
pub open spec fn certificate_of(text: Seq<char>) -> Option<Seq<u8>> {
    pem_contents(encode_utf8(text))
}

/// Decodes the PEM certificate of an authority file. Fails with
/// `MalformedPem` exactly where the text holds no well-formed block.
pub fn decode_certificate(text: &str) -> (r: Result<Vec<u8>, ConstructionError>)
    ensures
        match r {
            Ok(der) => certificate_of(text@) == Some(der@),
            Err(e) => certificate_of(text@) is None && e is MalformedPem,
        },
{
    match parse_pem(text.as_bytes()) {
        Ok(der) => Ok(der),
        Err(e) => Err(ConstructionError::MalformedPem(e)),
    }
}

/// A store whose only anchor is that of the certificate `der`. Fails with
/// `InvalidAnchor` exactly where the bytes are no certificate.
pub fn single_anchor_store(der: Vec<u8>) -> (r: Result<rustls::RootCertStore, ConstructionError>)
    ensures
        match r {
            Ok(store) => is_trust_anchor(der@) && store_anchors(store) == seq![
                trust_anchor_of(der@)->0,
            ],
            Err(e) => !is_trust_anchor(der@) && e is InvalidAnchor,
        },
{
    let mut store = rustls::RootCertStore::empty();
    let ghost anchor = trust_anchor_of(der@);
    match add_anchor(&mut store, der) {
        Ok(()) => {
            assert(store_anchors(store) =~= seq![anchor->0]);
            Ok(store)
        },
        Err(e) => Err(ConstructionError::InvalidAnchor(e)),
    }
}

/// Whether resolving `policy` succeeds, with `file` found at the path of a
/// custom authority and `platform` found of the platform's store.
pub open spec fn resolvable(policy: TrustPolicy, file: AuthorityFile, platform: PlatformRoots) -> bool {
    match policy {
        TrustPolicy::SystemRoots => platform is Available,
        TrustPolicy::Insecure => true,
        TrustPolicy::CustomAuthority(_) => {
            &&& file is Text
            &&& certificate_of(file->Text_0@) is Some
            &&& is_trust_anchor(certificate_of(file->Text_0@)->0)
        },
    }
}

/// Whether `r` is what resolving `policy` gives. Each policy looks only at
/// what concerns it. The platform's roots resolve where the store is
/// available and fail with `TrustStore` where it is not. The insecure mode
/// needs nothing and always resolves. A custom authority resolves from the
/// text of its file into a store that holds the anchor of the file's
/// certificate and nothing else; it fails with `Io` where the file was not
/// read, with `MalformedPem` where the text holds no PEM block, and with
/// `InvalidAnchor` where the block holds no certificate.
pub open spec fn resolved(
    policy: TrustPolicy,
    file: AuthorityFile,
    platform: PlatformRoots,
    r: Result<TrustConfig, ConstructionError>,
) -> bool {
    match policy {
        TrustPolicy::SystemRoots => match platform {
            PlatformRoots::Available => r is Ok && r->Ok_0 is SystemRoots,
            PlatformRoots::Unavailable(why) => r is Err && r->Err_0 is TrustStore
                && r->Err_0->TrustStore_0@ == why@,
        },
        TrustPolicy::Insecure => r is Ok && r->Ok_0 is Insecure,
        TrustPolicy::CustomAuthority(_) => match file {
            AuthorityFile::Absent => r is Err && r->Err_0 is Io && r->Err_0->Io_0@.len() == 0,
            AuthorityFile::Unreadable(why) => r is Err && r->Err_0 is Io && r->Err_0->Io_0@
                == why@,
            AuthorityFile::Text(text) => match certificate_of(text@) {
                None => r is Err && r->Err_0 is MalformedPem,
                Some(der) => if is_trust_anchor(der) {
                    &&& r is Ok
                    &&& r->Ok_0 is CustomAuthority
                    &&& store_anchors(r->Ok_0->CustomAuthority_0) == seq![
                        trust_anchor_of(der)->0,
                    ]
                } else {
                    r is Err && r->Err_0 is InvalidAnchor
                },
            },
        },
    }
}

/// Resolves a policy into a trust configuration: see `resolved`. No network
/// is touched, and nothing is read: what was found comes from the caller.
pub fn resolve(policy: &TrustPolicy, file: AuthorityFile, platform: PlatformRoots) -> (r: Result<
    TrustConfig,
    ConstructionError,
>)
    ensures
        r is Ok <==> resolvable(*policy, file, platform),
        resolved(*policy, file, platform, r),
{
    match policy {
        TrustPolicy::SystemRoots => match platform {
            PlatformRoots::Available => Ok(TrustConfig::SystemRoots),
            PlatformRoots::Unavailable(why) => Err(ConstructionError::TrustStore(why)),
        },
        TrustPolicy::Insecure => Ok(TrustConfig::Insecure),
        TrustPolicy::CustomAuthority(_) => match file {
            AuthorityFile::Absent => Err(ConstructionError::Io(String::new())),
            AuthorityFile::Unreadable(why) => Err(ConstructionError::Io(why)),
            AuthorityFile::Text(text) => {
                let der = decode_certificate(text.as_str())?;
                let store = single_anchor_store(der)?;
                Ok(TrustConfig::CustomAuthority(store))
            },
        },
    }
}

/// The verifier of the insecure mode: it accepts every certificate.
#[derive(Clone, Copy, Debug)]
pub struct SkipServerCertVerify;

impl SkipServerCertVerify {
    /// Judges a presented certificate chain. Whatever the certificates, the
    /// expected name, the stapled responses and the time: the answer is
    /// acceptance. Chain, name, expiry and revocation all go unchecked.
    pub fn verify_server_cert(
        &self,
        end_entity: &[u8],
        intermediates: &Vec<Vec<u8>>,
        server_name: &str,
        scts: &Vec<Vec<u8>>,
        ocsp_response: &[u8],
        now: u64,
    ) -> (verdict: Result<rustls::client::ServerCertVerified, rustls::Error>)
        ensures
            verdict is Ok,
    {
        Ok(rustls::client::ServerCertVerified::assertion())
    }
}

} // verus!
