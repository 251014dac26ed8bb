//! Binary/textual codecs for the service: base-58 for addresses, keys and
//! signatures, base-64 for instruction payloads, and the canonical 32-byte
//! address and 64-byte signature types.

use vstd::prelude::*;

use base64::Engine as _;

verus! {

/// What `bs58::encode` produces for a byte string (standard Bitcoin alphabet).
pub uninterp spec fn b58_of(b: Seq<u8>) -> Seq<char>;

/// What the standard padded base-64 engine of the `base64` crate produces.
pub uninterp spec fn b64_of(b: Seq<u8>) -> Seq<char>;

/// Whether a piece of text is the base-58 encoding of some byte string of
/// length `n` (the decodable inputs for addresses, signatures and secrets).
pub open spec fn is_b58_of_len(s: Seq<char>, n: nat) -> bool {
    exists|v: Seq<u8>| v.len() == n && b58_of(v) == s
}

/// Relies on `bs58::encode` (default alphabet): the result is a pure
/// function of the input bytes. 32 bytes encode to between 32 characters
/// (all zeroes, one digit per leading zero byte) and 44 (the 256-bit
/// maximum needs no more base-58 digits).
#[verifier::external_body]
fn bs58_encode(b: &Vec<u8>) -> (r: String)
    ensures
        r@ == b58_of(b@),
        b@.len() == 32 ==> 32 <= r@.len() <= 44,
{
    bs58::encode(b.as_slice()).into_string()
}

/// Relies on `bs58::decode` (default alphabet): base-58 is a bijection
/// between digit strings and byte strings, so decoding succeeds exactly on
/// the image of the encoder and returns the unique preimage.
#[verifier::external_body]
fn bs58_decode(s: &str) -> (r: Option<Vec<u8>>)
    ensures
        r matches Some(v) ==> b58_of(v@) == s@,
        r matches Some(v) ==> forall|u: Seq<u8>| b58_of(u) == s@ ==> u == v@,
        r is None ==> forall|u: Seq<u8>| b58_of(u) != s@,
{
    bs58::decode(s).into_vec().ok()
}

/// Relies on `base64::engine::general_purpose::STANDARD.encode`: the result
/// is a pure function of the input bytes.
#[verifier::external_body]
fn base64_encode(b: &Vec<u8>) -> (r: String)
    ensures
        r@ == b64_of(b@),
{
    base64::engine::general_purpose::STANDARD.encode(b.as_slice())
}

/// A canonical 32-byte account or program identifier.
pub struct Address {
    bytes: Vec<u8>,
}

impl View for Address {
    type V = Seq<u8>;

    closed spec fn view(&self) -> Seq<u8> {
        self.bytes@
    }
}

impl Address {
    pub open spec fn wf(&self) -> bool {
        self@.len() == 32
    }

    /// Accepts exactly the 32-byte strings.
    pub fn from_bytes(bytes: Vec<u8>) -> (r: Option<Address>)
        ensures
            bytes@.len() == 32 ==> (r matches Some(a) && a@ == bytes@),
            bytes@.len() != 32 ==> r is None,
    {
        if bytes.len() == 32 {
            Some(Address { bytes })
        } else {
            None
        }
    }

    pub fn as_slice(&self) -> (r: &[u8])
        ensures
            r@ == self@,
    {
        self.bytes.as_slice()
    }

    pub fn to_base58(&self) -> (r: String)
        ensures
            r@ == b58_of(self@),
            self@.len() == 32 ==> 32 <= r@.len() <= 44,
    {
        bs58_encode(&self.bytes)
    }
}

/// A 64-byte Ed25519 signature.
pub struct Signature {
    bytes: Vec<u8>,
}

impl View for Signature {
    type V = Seq<u8>;

    closed spec fn view(&self) -> Seq<u8> {
        self.bytes@
    }
}

impl Signature {
    pub open spec fn wf(&self) -> bool {
        self@.len() == 64
    }

    /// Accepts exactly the 64-byte strings.
    pub fn from_bytes(bytes: Vec<u8>) -> (r: Option<Signature>)
        ensures
            bytes@.len() == 64 ==> (r matches Some(s) && s@ == bytes@),
            bytes@.len() != 64 ==> r is None,
    {
        if bytes.len() == 64 {
            Some(Signature { bytes })
        } else {
            None
        }
    }

    pub fn as_slice(&self) -> (r: &[u8])
        ensures
            r@ == self@,
    {
        self.bytes.as_slice()
    }

    pub fn to_base64(&self) -> (r: String)
        ensures
            r@ == b64_of(self@),
    {
        base64_encode(&self.bytes)
    }
}

/// Encodes bytes as base-58 text.
pub fn encode_base58_bytes(b: &Vec<u8>) -> (r: String)
    ensures
        r@ == b58_of(b@),
{
    bs58_encode(b)
}

/// Decodes base-58 text into bytes; `None` exactly when the text is not
/// valid base-58.
pub fn decode_base58(s: &str) -> (r: Option<Vec<u8>>)
    ensures
        r matches Some(v) ==> b58_of(v@) == s@,
        r matches Some(v) ==> forall|u: Seq<u8>| b58_of(u) == s@ ==> u == v@,
        r is None ==> forall|u: Seq<u8>| b58_of(u) != s@,
{
    bs58_decode(s)
}

/// Encodes bytes as base-64 text (standard padded alphabet).
pub fn encode_base64(b: &Vec<u8>) -> (r: String)
    ensures
        r@ == b64_of(b@),
{
    base64_encode(b)
}

} // verus!
