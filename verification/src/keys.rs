use vstd::prelude::*;
use vstd::slice::{slice_subrange, slice_to_vec};

verus! {

/// An Ed25519 signing identity held as its 64 raw bytes: the 32 secret-key
/// bytes followed by the 32 public-key bytes, the layout of a standard
/// keypair file once its JSON byte array has been read.
pub struct SigningIdentity {
    pub bytes: Vec<u8>,
}

impl View for SigningIdentity {
    type V = Seq<u8>;

    open spec fn view(&self) -> Seq<u8> {
        self.bytes@
    }
}

impl SigningIdentity {
    /// A well-formed identity is exactly 64 bytes long.
    pub open spec fn wf(&self) -> bool {
        self.bytes@.len() == 64
    }

    /// The public-key half of the identity: its last 32 bytes.
    pub open spec fn spec_pubkey(&self) -> Seq<u8> {
        self.bytes@.subrange(32, 64)
    }

    /// Accepts exactly a 64-byte keypair image; rejects every other length.
    pub fn from_bytes(bytes: Vec<u8>) -> (r: Option<SigningIdentity>)
        ensures
            r is Some <==> bytes@.len() == 64,
            r matches Some(id) ==> id@ == bytes@ && id.wf(),
    {
        if bytes.len() == 64 {
            Some(SigningIdentity { bytes })
        } else {
            None
        }
    }

    /// Copies out the public key: the last 32 bytes of the identity.
    pub fn pubkey(&self) -> (r: Vec<u8>)
        requires
            self.wf(),
        ensures
            r@ == self.spec_pubkey(),
            r@.len() == 32,
    {
        let tail = slice_subrange(self.bytes.as_slice(), 32, 64);
        slice_to_vec(tail)
    }
}

/// A short-lived network checkpoint value, 32 bytes, fetched from the
/// target network and signed over to bound a transaction's validity.
pub struct FreshnessToken {
    pub bytes: Vec<u8>,
}

impl View for FreshnessToken {
    type V = Seq<u8>;

    open spec fn view(&self) -> Seq<u8> {
        self.bytes@
    }
}

impl FreshnessToken {
    /// A well-formed token is exactly 32 bytes long.
    pub open spec fn wf(&self) -> bool {
        self.bytes@.len() == 32
    }

    /// Accepts exactly a 32-byte checkpoint value; rejects every other length.
    pub fn from_bytes(bytes: Vec<u8>) -> (r: Option<FreshnessToken>)
        ensures
            r is Some <==> bytes@.len() == 32,
            r matches Some(t) ==> t@ == bytes@ && t.wf(),
    {
        if bytes.len() == 32 {
            Some(FreshnessToken { bytes })
        } else {
            None
        }
    }
}

} // verus!
