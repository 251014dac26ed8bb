//! Ed25519 key material: generation, signing and verification. The raw
//! curve operations are the ledger SDK's; everything around them is
//! verified against the named results below.

use vstd::prelude::*;

use crate::codec::{Address, Signature};
use solana_sdk::signer::Signer as _;

verus! {

/// Whether the SDK accepts a byte string as a keypair: 32 secret bytes
/// followed by the 32-byte public key that the secret derives to.
pub uninterp spec fn keypair_accepts(b: Seq<u8>) -> bool;

/// The Ed25519 signature of a message under a 64-byte keypair; signing is
/// deterministic, so this is a pure function of the two.
pub uninterp spec fn sig_of(keypair: Seq<u8>, msg: Seq<char>) -> Seq<u8>;

/// Whether a signature verifies a message under a 32-byte public key; a
/// pure function of the three byte strings.
pub uninterp spec fn ed25519_verifies(pubkey: Seq<u8>, msg: Seq<char>, sig: Seq<u8>) -> bool;

/// Relies on `solana_sdk::signature::Keypair::new` and `to_bytes`: a fresh
/// keypair is 64 bytes, secret then derived public key, and round-trips
/// through `from_bytes`.
#[verifier::external_body]
fn keypair_generate() -> (r: Vec<u8>)
    ensures
        r@.len() == 64,
        keypair_accepts(r@),
{
    solana_sdk::signature::Keypair::new().to_bytes().to_vec()
}

/// Relies on `solana_sdk::signature::Keypair::from_bytes`: it accepts a
/// byte string iff it is 64 bytes whose second half is the public key
/// derived from the first half, and acceptance is a pure function of the
/// bytes.
#[verifier::external_body]
fn keypair_check(bytes: &Vec<u8>) -> (r: bool)
    ensures
        r == keypair_accepts(bytes@),
        r ==> bytes@.len() == 64,
{
    solana_sdk::signature::Keypair::from_bytes(bytes.as_slice()).is_ok()
}

/// Relies on `Keypair::from_bytes` and `Signer::sign_message` of
/// `solana_sdk`: Ed25519 signing is deterministic, yields 64 bytes, and a
/// fresh signature verifies under the keypair's own public key (the second
/// half of its bytes).
#[verifier::external_body]
fn ed25519_sign(keypair: &Vec<u8>, message: &str) -> (r: Vec<u8>)
    requires
        keypair@.len() == 64,
        keypair_accepts(keypair@),
    ensures
        r@ == sig_of(keypair@, message@),
        r@.len() == 64,
        ed25519_verifies(keypair@.subrange(32, 64), message@, r@),
{
    let kp = solana_sdk::signature::Keypair::from_bytes(keypair.as_slice()).unwrap();
    kp.sign_message(message.as_bytes()).as_ref().to_vec()
}

/// Relies on `solana_sdk::signature::Signature::verify`: it never panics
/// and its verdict is a pure function of public key, message and signature
/// bytes (a mismatch is `false`, not an error).
#[verifier::external_body]
fn ed25519_verify(pubkey: &[u8], message: &str, signature: &[u8]) -> (r: bool)
    requires
        pubkey@.len() == 32,
        signature@.len() == 64,
    ensures
        r == ed25519_verifies(pubkey@, message@, signature@),
{
    let sig = solana_sdk::signature::Signature::from(<[u8; 64]>::try_from(signature).unwrap());
    sig.verify(pubkey, message.as_bytes())
}

/// A 64-byte Ed25519 keypair: secret scalar bytes followed by the public
/// key deterministically derived from them.
pub struct KeyPair {
    bytes: Vec<u8>,
}

impl View for KeyPair {
    type V = Seq<u8>;

    closed spec fn view(&self) -> Seq<u8> {
        self.bytes@
    }
}

impl KeyPair {
    pub open spec fn wf(&self) -> bool {
        self@.len() == 64 && keypair_accepts(self@)
    }

    /// The embedded public key, in specification form.
    pub open spec fn spec_public(&self) -> Seq<u8> {
        self@.subrange(32, 64)
    }

    /// Generates a fresh keypair from the SDK's secure random source.
    pub fn generate() -> (r: KeyPair)
        ensures
            r.wf(),
    {
        KeyPair { bytes: keypair_generate() }
    }

    /// Accepts exactly the byte strings the SDK accepts: 64 bytes with a
    /// consistent embedded public key.
    pub fn from_bytes(bytes: Vec<u8>) -> (r: Option<KeyPair>)
        ensures
            r matches Some(kp) ==> (kp.wf() && kp@ == bytes@),
            r is None ==> !keypair_accepts(bytes@),
    {
        if keypair_check(&bytes) {
            Some(KeyPair { bytes })
        } else {
            None
        }
    }

    pub fn as_slice(&self) -> (r: &[u8])
        ensures
            r@ == self@,
    {
        self.bytes.as_slice()
    }

    /// The base-58 text of the full 64 secret-and-public bytes.
    pub fn to_base58(&self) -> (r: String)
        ensures
            r@ == crate::codec::b58_of(self@),
    {
        crate::codec::encode_base58_bytes(&self.bytes)
    }

    /// The embedded 32-byte public key.
    pub fn public_key(&self) -> (r: Address)
        requires
            self.wf(),
        ensures
            r@ == self.spec_public(),
            r.wf(),
    {
        let mut out: Vec<u8> = Vec::new();
        let mut i: usize = 32;
        while i < 64
            invariant
                32 <= i <= 64,
                self@.len() == 64,
                out@ == self@.subrange(32, i as int),
            decreases 64 - i,
        {
            out.push(self.bytes[i]);
            proof {
                assert(out@ =~= self@.subrange(32, i as int + 1));
            }
            i = i + 1;
        }
        proof {
            assert(out@ =~= self.spec_public());
        }
        Address::from_bytes(out).unwrap()
    }

    /// Signs a message; deterministic Ed25519, and the result verifies
    /// under this keypair's own public key.
    pub fn sign(&self, message: &str) -> (r: Signature)
        requires
            self.wf(),
        ensures
            r@ == sig_of(self@, message@),
            r.wf(),
            ed25519_verifies(self.spec_public(), message@, r@),
    {
        let sig = ed25519_sign(&self.bytes, message);
        Signature::from_bytes(sig).unwrap()
    }
}

/// Whether `signature` verifies `message` under `pubkey`; a mismatch is a
/// `false` verdict, never an error.
pub fn verify_signature(pubkey: &Address, message: &str, signature: &Signature) -> (r: bool)
    requires
        pubkey.wf(),
        signature.wf(),
    ensures
        r == ed25519_verifies(pubkey@, message@, signature@),
{
    ed25519_verify(pubkey.as_slice(), message, signature.as_slice())
}

} // verus!
