use vstd::prelude::*;

verus! {

/// Failure while assembling, signing or serializing a payload.
#[derive(Clone, Copy, Debug, PartialEq, Eq, Structural)]
pub enum BuildError {
    /// The 64 identity bytes do not form a consistent keypair.
    InvalidIdentity,
    /// Signing the assembled message failed.
    Signing,
    /// Serializing the signed transaction to wire bytes failed.
    Serialization,
}

/// A fatal probe failure; every error aborts the whole run.
#[derive(Clone, Copy, Debug, PartialEq, Eq, Structural)]
pub enum ProbeError {
    /// The signing-key source could not supply an identity.
    KeyLoad,
    /// The checkpoint source could not supply a freshness token.
    Rpc,
    /// A payload could not be built.
    Build(BuildError),
    /// An HTTP submission or health check failed at the transport level.
    Transport,
}

impl BuildError {
    /// A short human-readable description.
    pub fn describe(&self) -> (r: &'static str)
        ensures
            r@.len() > 0,
    {
        proof {
            reveal_strlit("identity bytes do not form a keypair");
            reveal_strlit("signing failed");
            reveal_strlit("serialization failed");
        }
        match self {
            BuildError::InvalidIdentity => "identity bytes do not form a keypair",
            BuildError::Signing => "signing failed",
            BuildError::Serialization => "serialization failed",
        }
    }
}

impl ProbeError {
    /// A short human-readable description.
    pub fn describe(&self) -> (r: &'static str)
        ensures
            r@.len() > 0,
    {
        proof {
            reveal_strlit("could not load the signing key");
            reveal_strlit("could not fetch a freshness token");
            reveal_strlit("transport failure");
        }
        match self {
            ProbeError::KeyLoad => "could not load the signing key",
            ProbeError::Rpc => "could not fetch a freshness token",
            ProbeError::Build(b) => b.describe(),
            ProbeError::Transport => "transport failure",
        }
    }
}

} // verus!
