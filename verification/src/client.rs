//! The client: one trust configuration, fixed when it is made, under which
//! any number of attempts can be begun.

use vstd::prelude::*;
use vstd::string::StringExecFns;
use crate::attempt::{Attempt, AttemptView, Phase};
use crate::error::ConstructionError;
use crate::identity::name_view;
use crate::tls::{
    resolvable, resolve, resolved, AuthorityFile, PlatformRoots, TrustConfig, TrustPolicy,
};

verus! {

/// A probe client. The caller binds the local endpoint and applies the
/// client's trust configuration to it.
#[derive(Debug)]
pub struct Client {
    trust: TrustConfig,
}

impl Client {
    /// The trust configuration that the client was made with.
    pub closed spec fn config(&self) -> TrustConfig {
        self.trust
    }

    /// Makes a client for `policy`. `authority` is what was found at the
    /// path of a custom authority, and `platform` what was found of the
    /// platform's store; a policy looks only at what concerns it. Succeeds
    /// exactly where the policy resolves, with the configuration that
    /// `resolve` gives, and fails with its error.
    pub fn new(policy: TrustPolicy, authority: AuthorityFile, platform: PlatformRoots) -> (r: Result<
        Client,
        ConstructionError,
    >)
        ensures
            r is Ok <==> resolvable(policy, authority, platform),
            resolved(
                policy,
                authority,
                platform,
                match r {
                    Ok(client) => Ok(client.config()),
                    Err(e) => Err(e),
                },
            ),
    {
        match resolve(&policy, authority, platform) {
            Ok(trust) => Ok(Client { trust }),
            Err(e) => Err(e),
        }
    }

    /// The trust configuration.
    pub fn trust(&self) -> (trust: &TrustConfig)
        ensures
            *trust == self.config(),
    {
        &self.trust
    }

    /// Begins an attempt on `remote_endpoint`: the attempt is `Idle`, and
    /// its first `step` asks for the endpoint to be resolved. The client is
    /// left as it was, whatever became of earlier attempts.
    pub fn test_connection(
        &mut self,
        remote_endpoint: &str,
        server_name: Option<String>,
        timeout_duration: u64,
    ) -> (attempt: Attempt)
        ensures
            *final(self) == *old(self),
            attempt@ == (AttemptView {
                endpoint: remote_endpoint@,
                server_name: name_view(server_name),
                timeout: timeout_duration,
                phase: Phase::Idle,
            }),
    {
        Attempt::new(remote_endpoint, server_name, timeout_duration)
    }

    /// The line that confirms a successful attempt on `endpoint`. Under the
    /// insecure policy it says that the certificate was not verified, so
    /// that no log mistakes such a success for a verified one.
    pub fn success_line(&self, endpoint: &str) -> (line: String)
        ensures
            line@ == success_text(endpoint@, !(self.config() is Insecure)),
    {
        let line = String::from_str("Connection to ").concat(endpoint).concat(" succeeded!");
        if self.trust.verifies_peer() {
            line
        } else {
            line.concat(" (server certificate not verified)")
        }
    }
}

/// The confirmation line for `endpoint`, for a verified and for an
/// unverified handshake.
pub open spec fn success_text(endpoint: Seq<char>, verified: bool) -> Seq<char> {
    let line = "Connection to "@ + endpoint + " succeeded!"@;
    if verified {
        line
    } else {
        line + " (server certificate not verified)"@
    }
}

} // verus!
