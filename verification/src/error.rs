//! The failures of client construction and of a connection attempt.

use vstd::prelude::*;

verus! {

/// What went wrong, by stage. Every failure is final for its attempt.
#[derive(Clone, Copy, Debug, PartialEq, Eq, Structural)]
pub enum ErrorKind {
    /// The authority file could not be read.
    Io,
    /// The authority file holds no usable PEM certificate.
    CertParse,
    /// The platform's root store is unavailable.
    TrustStore,
    /// The local endpoint could not be created.
    EndpointBind,
    /// The host resolves to no usable address.
    Resolution,
    /// No identity name could be determined.
    IdentityInference,
    /// The transport refused the address or the name before any I/O.
    HandshakeSetup,
    /// The deadline passed before the handshake completed.
    Timeout,
    /// The handshake completed in a failure.
    Handshake,
}

impl ErrorKind {
    /// Whether a failure of this kind arises while the client is built,
    /// before any attempt.
    pub open spec fn spec_is_construction(&self) -> bool {
        *self is Io || *self is CertParse || *self is TrustStore || *self is EndpointBind
    }

    #[verifier::when_used_as_spec(spec_is_construction)]
    pub fn is_construction(&self) -> (b: bool)
        ensures
            b == self.spec_is_construction(),
    {
        match self {
            ErrorKind::Io | ErrorKind::CertParse | ErrorKind::TrustStore | ErrorKind::EndpointBind => true,
            _ => false,
        }
    }

    /// The line that introduces a failure of this kind to the user.
    pub open spec fn spec_context(&self) -> Seq<char> {
        match *self {
            ErrorKind::Io => "Failed to read CA cert file"@,
            ErrorKind::CertParse => "Failed to parse CA cert"@,
            ErrorKind::TrustStore => "Failed to load the system's root CA store"@,
            ErrorKind::EndpointBind => "Failed to create QUIC client"@,
            ErrorKind::Resolution => "Failed to resolve remote endpoint"@,
            ErrorKind::IdentityInference => "Failed to infer server name from endpoint"@,
            ErrorKind::HandshakeSetup => "Failed to configure connection"@,
            ErrorKind::Timeout => "Timed out connecting to remote endpoint"@,
            ErrorKind::Handshake => "Failed to connect to remote endpoint"@,
        }
    }

    pub fn context(&self) -> (text: &'static str)
        ensures
            text@ == self.spec_context(),
    {
        match self {
            ErrorKind::Io => "Failed to read CA cert file",
            ErrorKind::CertParse => "Failed to parse CA cert",
            ErrorKind::TrustStore => "Failed to load the system's root CA store",
            ErrorKind::EndpointBind => "Failed to create QUIC client",
            ErrorKind::Resolution => "Failed to resolve remote endpoint",
            ErrorKind::IdentityInference => "Failed to infer server name from endpoint",
            ErrorKind::HandshakeSetup => "Failed to configure connection",
            ErrorKind::Timeout => "Timed out connecting to remote endpoint",
            ErrorKind::Handshake => "Failed to connect to remote endpoint",
        }
    }
}

/// Why a connection attempt failed. The strings are the causes that the
/// resolver or the transport reported, word for word.
#[derive(Clone, Debug, PartialEq, Eq)]
pub enum ConnectionError {
    /// The resolver could not parse or resolve the endpoint.
    ResolverFailed(String),
    /// The resolver answered, with no IPv4 address among its candidates.
    NoIpv4Address,
    /// Neither an explicit name nor a host part of the endpoint is there.
    IdentityInference,
    /// The transport refused the address or the name.
    HandshakeSetup(String),
    /// The deadline passed first.
    Timeout,
    /// The peer or the TLS layer rejected the handshake.
    Handshake(String),
}

/// A connection failure with its cause as characters.
pub enum Failure {
    ResolverFailed(Seq<char>),
    NoIpv4Address,
    IdentityInference,
    HandshakeSetup(Seq<char>),
    Timeout,
    Handshake(Seq<char>),
}

impl Failure {
    /// The kind of this failure.
    pub open spec fn kind(&self) -> ErrorKind {
        match *self {
            Failure::ResolverFailed(_) => ErrorKind::Resolution,
            Failure::NoIpv4Address => ErrorKind::Resolution,
            Failure::IdentityInference => ErrorKind::IdentityInference,
            Failure::HandshakeSetup(_) => ErrorKind::HandshakeSetup,
            Failure::Timeout => ErrorKind::Timeout,
            Failure::Handshake(_) => ErrorKind::Handshake,
        }
    }
}

impl Failure {
    /// The line that introduces this failure to the user: that of its kind,
    /// but for a host without an IPv4 address, which has a line of its own.
    pub open spec fn context(&self) -> Seq<char> {
        match *self {
            Failure::NoIpv4Address => "Did not find suitable address for endpoint"@,
            _ => self.kind().spec_context(),
        }
    }
}

impl View for ConnectionError {
    type V = Failure;

    open spec fn view(&self) -> Failure {
        match *self {
            ConnectionError::ResolverFailed(why) => Failure::ResolverFailed(why@),
            ConnectionError::NoIpv4Address => Failure::NoIpv4Address,
            ConnectionError::IdentityInference => Failure::IdentityInference,
            ConnectionError::HandshakeSetup(why) => Failure::HandshakeSetup(why@),
            ConnectionError::Timeout => Failure::Timeout,
            ConnectionError::Handshake(why) => Failure::Handshake(why@),
        }
    }
}

impl ConnectionError {
    /// The kind of this failure. It is never one of client construction.
    pub fn kind(&self) -> (k: ErrorKind)
        ensures
            k == self@.kind(),
            !k.spec_is_construction(),
    {
        match self {
            ConnectionError::ResolverFailed(_) => ErrorKind::Resolution,
            ConnectionError::NoIpv4Address => ErrorKind::Resolution,
            ConnectionError::IdentityInference => ErrorKind::IdentityInference,
            ConnectionError::HandshakeSetup(_) => ErrorKind::HandshakeSetup,
            ConnectionError::Timeout => ErrorKind::Timeout,
            ConnectionError::Handshake(_) => ErrorKind::Handshake,
        }
    }

    /// The line that introduces this failure to the user.
    pub fn context(&self) -> (text: &'static str)
        ensures
            text@ == self@.context(),
    {
        match self {
            ConnectionError::NoIpv4Address => "Did not find suitable address for endpoint",
            _ => self.kind().context(),
        }
    }
}

/// Why a client could not be made.
#[derive(Debug)]
pub enum ConstructionError {
    /// The authority file could not be read; the string says why.
    Io(String),
    /// The authority file holds no well-formed PEM block.
    MalformedPem(pem::PemError),
    /// The PEM block holds no certificate that can serve as a trust anchor.
    InvalidAnchor(rustls::Error),
    /// The platform's root store could not be read.
    TrustStore(String),
    /// The local endpoint could not be created.
    EndpointBind(String),
}

impl ConstructionError {
    pub open spec fn spec_kind(&self) -> ErrorKind {
        match *self {
            ConstructionError::Io(_) => ErrorKind::Io,
            ConstructionError::MalformedPem(_) => ErrorKind::CertParse,
            ConstructionError::InvalidAnchor(_) => ErrorKind::CertParse,
            ConstructionError::TrustStore(_) => ErrorKind::TrustStore,
            ConstructionError::EndpointBind(_) => ErrorKind::EndpointBind,
        }
    }

    /// The kind of this failure.
    #[verifier::when_used_as_spec(spec_kind)]
    pub fn kind(&self) -> (k: ErrorKind)
        ensures
            k == self.spec_kind(),
            k.spec_is_construction(),
    {
        match self {
            ConstructionError::Io(_) => ErrorKind::Io,
            ConstructionError::MalformedPem(_) => ErrorKind::CertParse,
            ConstructionError::InvalidAnchor(_) => ErrorKind::CertParse,
            ConstructionError::TrustStore(_) => ErrorKind::TrustStore,
            ConstructionError::EndpointBind(_) => ErrorKind::EndpointBind,
        }
    }

    /// The line that introduces this failure to the user: that of its kind,
    /// but for a certificate that is no trust anchor, which has a line of
    /// its own.
    pub open spec fn spec_context(&self) -> Seq<char> {
        match *self {
            ConstructionError::InvalidAnchor(_) =>
                "Failed to add provided CA cert to root cert store"@,
            _ => self.spec_kind().spec_context(),
        }
    }

    pub fn context(&self) -> (text: &'static str)
        ensures
            text@ == self.spec_context(),
    {
        match self {
            ConstructionError::InvalidAnchor(_) =>
                "Failed to add provided CA cert to root cert store",
            _ => self.kind().context(),
        }
    }
}

} // verus!
