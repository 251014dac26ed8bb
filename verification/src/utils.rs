//! Parsing of externally supplied base-58 text into canonical binary
//! forms, with a field-tagged error per kind of input.

use vstd::prelude::*;

use crate::codec::{b58_of, is_b58_of_len, Address, Signature};
use crate::error::AppError;
use crate::keys::{keypair_accepts, KeyPair};

verus! {

/// Decodes a base-58 account address; succeeds exactly on text that
/// encodes 32 bytes, and returns the unique such byte string.
pub fn parse_pubkey(address: &str) -> (r: Result<Address, AppError>)
    ensures
        r is Ok <==> is_b58_of_len(address@, 32),
        r matches Ok(a) ==> (a.wf() && b58_of(a@) == address@ && (forall|u: Seq<u8>|
            b58_of(u) == address@ ==> u == a@)),
        r matches Err(e) ==> e matches AppError::InvalidInput(_),
{
    match crate::codec::decode_base58(address) {
        Some(bytes) => {
            if bytes.len() == 32 {
                Ok(Address::from_bytes(bytes).unwrap())
            } else {
                Err(AppError::InvalidInput("Invalid public key".to_owned()))
            }
        },
        None => Err(AppError::InvalidInput("Invalid public key".to_owned())),
    }
}

/// Decodes a base-58 signature; succeeds exactly on text that encodes 64
/// bytes, and returns the unique such byte string.
pub fn parse_signature(signature: &str) -> (r: Result<Signature, AppError>)
    ensures
        r is Ok <==> is_b58_of_len(signature@, 64),
        r matches Ok(s) ==> (s.wf() && b58_of(s@) == signature@ && (forall|u: Seq<u8>|
            b58_of(u) == signature@ ==> u == s@)),
        r matches Err(e) ==> e matches AppError::InvalidInput(_),
{
    match crate::codec::decode_base58(signature) {
        Some(bytes) => {
            if bytes.len() == 64 {
                Ok(Signature::from_bytes(bytes).unwrap())
            } else {
                Err(AppError::InvalidInput("Invalid signature".to_owned()))
            }
        },
        None => Err(AppError::InvalidInput("Invalid signature".to_owned())),
    }
}

/// Decodes a base-58 private key; succeeds exactly on text that encodes a
/// byte string the SDK accepts as a keypair (64 bytes, embedded public key
/// consistent with the secret half).
pub fn keypair_from_base58(private_key: &str) -> (r: Result<KeyPair, AppError>)
    ensures
        r is Ok <==> exists|b: Seq<u8>| #[trigger] keypair_accepts(b) && b58_of(b)
            == private_key@,
        r matches Ok(kp) ==> (kp.wf() && b58_of(kp@) == private_key@ && (forall|u: Seq<u8>|
            b58_of(u) == private_key@ ==> u == kp@)),
        r matches Err(e) ==> e matches AppError::Keypair(_),
{
    match crate::codec::decode_base58(private_key) {
        Some(bytes) => {
            let ghost decoded = bytes@;
            match KeyPair::from_bytes(bytes) {
                Some(kp) => {
                    proof {
                        assert(keypair_accepts(kp@) && b58_of(kp@) == private_key@);
                    }
                    Ok(kp)
                },
                None => {
                    proof {
                        assert(forall|b: Seq<u8>| b58_of(b) == private_key@ ==> b == decoded);
                    }
                    Err(AppError::Keypair("Invalid keypair bytes".to_owned()))
                },
            }
        },
        None => Err(AppError::Keypair("Invalid base58 private key".to_owned())),
    }
}

/// Law: base-58 address encoding round-trips. Decoding the encoding of any
/// 32-byte address yields the address itself.
pub fn address_round_trip(a: &Address) -> (r: Address)
    requires
        a.wf(),
    ensures
        r@ == a@,
{
    let text = a.to_base58();
    match parse_pubkey(text.as_str()) {
        Ok(decoded) => decoded,
        Err(_) => {
            proof {
                assert(is_b58_of_len(text@, 32)) by {
                    assert(a@.len() == 32 && b58_of(a@) == text@);
                }
            }
            unreached()
        },
    }
}

/// Whether a character is a decimal digit.
pub open spec fn is_dec_digit(c: char) -> bool {
    48 <= c as u32 <= 57
}

pub open spec fn all_dec_digits(s: Seq<char>) -> bool {
    forall|i: int| 0 <= i < s.len() ==> is_dec_digit(#[trigger] s[i])
}

/// The value of a decimal digit string, most significant digit first.
pub open spec fn digits_val(s: Seq<char>) -> int
    decreases s.len(),
{
    if s.len() == 0 {
        0
    } else {
        digits_val(s.drop_last()) * 10 + (s.last() as u32 - 48)
    }
}

/// The number an unsigned decimal parse accepts: an optional leading plus
/// sign, then at least one digit, valid only if the value fits in 64 bits.
pub open spec fn parsed_u64(s: Seq<char>) -> Option<u64> {
    let body = if s.len() > 0 && s[0] == '+' {
        s.subrange(1, s.len() as int)
    } else {
        s
    };
    if body.len() > 0 && all_dec_digits(body) && digits_val(body) <= u64::MAX {
        Some(digits_val(body) as u64)
    } else {
        None
    }
}

proof fn lemma_digits_val_nonneg(s: Seq<char>)
    requires
        all_dec_digits(s),
    ensures
        digits_val(s) >= 0,
    decreases s.len(),
{
    if s.len() > 0 {
        assert(all_dec_digits(s.drop_last()));
        lemma_digits_val_nonneg(s.drop_last());
    }
}

/// A longer digit string never has a smaller value: each appended digit
/// multiplies the prefix's value by ten.
proof fn lemma_digits_val_prefix(s: Seq<char>, i: int)
    requires
        all_dec_digits(s),
        0 <= i <= s.len(),
    ensures
        digits_val(s.subrange(0, i)) <= digits_val(s),
    decreases s.len() - i,
{
    if i < s.len() {
        let t = s.subrange(0, i + 1);
        assert(all_dec_digits(t));
        assert(t.drop_last() =~= s.subrange(0, i));
        lemma_digits_val_nonneg(s.subrange(0, i));
        assert(digits_val(s.subrange(0, i)) <= digits_val(t));
        lemma_digits_val_prefix(s, i + 1);
        assert(s.subrange(0, s.len() as int) =~= s);
    } else {
        assert(s.subrange(0, i) =~= s);
    }
}

/// Parses an unsigned decimal the way the standard parser does: an
/// optional plus sign, then digits; `None` on anything malformed or out of
/// range.
pub fn parse_u64(s: &str) -> (r: Option<u64>)
    ensures
        r == parsed_u64(s@),
{
    let n = s.unicode_len();
    if n == 0 {
        return None;
    }
    let first = s.get_char(0);
    let start: usize = if first == '+' {
        1
    } else {
        0
    };
    let ghost body = if s@[0] == '+' {
        s@.subrange(1, s@.len() as int)
    } else {
        s@
    };
    proof {
        assert(body =~= s@.subrange(start as int, n as int));
    }
    if start == n {
        return None;
    }
    let mut acc: u64 = 0;
    let mut i: usize = start;
    while i < n
        invariant
            start <= i <= n,
            n == s@.len(),
            body == s@.subrange(start as int, n as int),
            body.len() == n - start,
            all_dec_digits(body.subrange(0, i - start)),
            acc == digits_val(body.subrange(0, i - start)),
            body =~= (if s@.len() > 0 && s@[0] == '+' {
                s@.subrange(1, s@.len() as int)
            } else {
                s@
            }),
        decreases n - i,
    {
        let c = s.get_char(i);
        let cv = c as u32;
        if cv < 48 || cv > 57 {
            proof {
                assert(body[i - start] == s@[i as int]);
                assert(!is_dec_digit(body[i - start]));
                assert(parsed_u64(s@) is None);
            }
            return None;
        }
        let d = (cv - 48) as u64;
        let ghost pref = body.subrange(0, i - start);
        let ghost pref1 = body.subrange(0, i + 1 - start);
        proof {
            assert(pref1.drop_last() =~= pref);
            assert(pref1.last() == s@[i as int]);
            assert(all_dec_digits(pref1));
            assert(digits_val(pref1) == digits_val(pref) * 10 + d);
        }
        let next = match acc.checked_mul(10) {
            Some(x) => x.checked_add(d),
            None => None,
        };
        match next {
            Some(x) => {
                acc = x;
            },
            None => {
                proof {
                    assert(digits_val(pref1) > u64::MAX);
                    if all_dec_digits(body) {
                        lemma_digits_val_prefix(body, i + 1 - start);
                        assert(digits_val(body) > u64::MAX);
                        assert(parsed_u64(s@) is None);
                    } else {
                        assert(parsed_u64(s@) is None);
                    }
                }
                return None;
            },
        }
        i = i + 1;
    }
    proof {
        assert(body.subrange(0, n - start) =~= body);
        assert(parsed_u64(s@) == Some(acc));
    }
    Some(acc)
}

} // verus!
