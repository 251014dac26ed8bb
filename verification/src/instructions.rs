//! Byte-exact instruction payloads and program identities for the four
//! supported operations, plus the associated-account derivation.
//!
//! The payload layouts follow the on-chain programs' wire formats: the
//! system program serializes an enum tag as four little-endian bytes
//! followed by the fields; the token program packs a one-byte tag followed
//! by the fields, with an optional authority as a one-byte flag and 32 key
//! bytes; the associated-token-account program's idempotent create
//! instruction is its single tag byte.

use vstd::prelude::*;

use crate::codec::Address;

verus! {

/// The token program's mint account size in bytes, which a create-mint
/// account allocation must reserve.
pub const MINT_ACCOUNT_SIZE: u64 = 82;

/// The low byte of an unsigned value.
pub open spec fn lo_byte(v: u64) -> u8 {
    (v & 0xff) as u8
}

/// The eight little-endian bytes of a 64-bit value.
pub open spec fn u64_le_bytes(v: u64) -> Seq<u8> {
    seq![
        lo_byte(v),
        lo_byte(v >> 8),
        lo_byte(v >> 16),
        lo_byte(v >> 24),
        lo_byte(v >> 32),
        lo_byte(v >> 40),
        lo_byte(v >> 48),
        lo_byte(v >> 56),
    ]
}

fn push_u64_le(out: &mut Vec<u8>, v: u64)
    ensures
        final(out)@ == old(out)@ + u64_le_bytes(v),
{
    proof {
        assert(v & 0xff < 256 && (v >> 8) & 0xff < 256 && (v >> 16) & 0xff < 256 && (v >> 24)
            & 0xff < 256 && (v >> 32) & 0xff < 256 && (v >> 40) & 0xff < 256 && (v >> 48) & 0xff
            < 256 && (v >> 56) & 0xff < 256) by (bit_vector);
    }
    out.push((v & 0xff) as u8);
    out.push(((v >> 8) & 0xff) as u8);
    out.push(((v >> 16) & 0xff) as u8);
    out.push(((v >> 24) & 0xff) as u8);
    out.push(((v >> 32) & 0xff) as u8);
    out.push(((v >> 40) & 0xff) as u8);
    out.push(((v >> 48) & 0xff) as u8);
    out.push(((v >> 56) & 0xff) as u8);
    proof {
        assert(out@ =~= old(out)@ + u64_le_bytes(v));
    }
}

/// The token program's 32-byte identity.
pub open spec fn spec_token_program_id() -> Seq<u8> {
    seq![
        6u8, 221u8, 246u8, 225u8, 215u8, 101u8, 161u8, 147u8, 217u8, 203u8, 225u8, 70u8, 206u8,
        235u8, 121u8, 172u8, 28u8, 180u8, 133u8, 237u8, 95u8, 91u8, 55u8, 145u8, 58u8, 140u8,
        245u8, 133u8, 126u8, 255u8, 0u8, 169u8,
    ]
}

/// The system program's 32-byte identity (all zeroes).
pub open spec fn spec_system_program_id() -> Seq<u8> {
    Seq::new(32, |i: int| 0u8)
}

/// The token program's identity as an address.
pub fn token_program_id() -> (r: Address)
    ensures
        r@ == spec_token_program_id(),
        r.wf(),
{
    let mut b: Vec<u8> = Vec::new();
    b.push(6);
    b.push(221);
    b.push(246);
    b.push(225);
    b.push(215);
    b.push(101);
    b.push(161);
    b.push(147);
    b.push(217);
    b.push(203);
    b.push(225);
    b.push(70);
    b.push(206);
    b.push(235);
    b.push(121);
    b.push(172);
    b.push(28);
    b.push(180);
    b.push(133);
    b.push(237);
    b.push(95);
    b.push(91);
    b.push(55);
    b.push(145);
    b.push(58);
    b.push(140);
    b.push(245);
    b.push(133);
    b.push(126);
    b.push(255);
    b.push(0);
    b.push(169);
    proof {
        assert(b@ =~= spec_token_program_id());
    }
    Address::from_bytes(b).unwrap()
}

/// The system program's identity as an address.
pub fn system_program_id() -> (r: Address)
    ensures
        r@ == spec_system_program_id(),
        r.wf(),
{
    let mut b: Vec<u8> = Vec::new();
    let mut i: usize = 0;
    while i < 32
        invariant
            i <= 32,
            b@ == spec_system_program_id().subrange(0, i as int),
        decreases 32 - i,
    {
        b.push(0);
        proof {
            assert(b@ =~= spec_system_program_id().subrange(0, i as int + 1));
        }
        i = i + 1;
    }
    proof {
        assert(b@ =~= spec_system_program_id());
    }
    Address::from_bytes(b).unwrap()
}

/// The system program's create-account payload: tag 0 as four little-endian
/// bytes, then lamports, space, and the 32-byte owner program.
pub open spec fn create_account_data(lamports: u64, space: u64, owner: Seq<u8>) -> Seq<u8> {
    seq![0u8, 0u8, 0u8, 0u8] + u64_le_bytes(lamports) + u64_le_bytes(space) + owner
}

/// The system program's transfer payload: tag 2 as four little-endian
/// bytes, then the lamport amount.
pub open spec fn native_transfer_data(lamports: u64) -> Seq<u8> {
    seq![2u8, 0u8, 0u8, 0u8] + u64_le_bytes(lamports)
}

/// The token program's initialize-mint payload: tag 0, the decimals, the
/// mint authority, and the freeze authority behind a presence flag.
pub open spec fn initialize_mint_data(decimals: u8, mint_authority: Seq<u8>, freeze_authority: Seq<
    u8,
>) -> Seq<u8> {
    seq![0u8, decimals] + mint_authority + seq![1u8] + freeze_authority
}

/// The token program's mint-to payload: tag 7, then the amount.
pub open spec fn mint_to_data(amount: u64) -> Seq<u8> {
    seq![7u8] + u64_le_bytes(amount)
}

/// The token program's transfer payload: tag 3, then the amount.
pub open spec fn token_transfer_data(amount: u64) -> Seq<u8> {
    seq![3u8] + u64_le_bytes(amount)
}

/// The associated-token-account program's idempotent create payload: the
/// tag byte of its create-idempotent variant alone, a no-op on-chain when
/// the account already exists.
pub open spec fn create_associated_account_data() -> Seq<u8> {
    seq![1u8]
}

pub fn create_account_data_bytes(lamports: u64, space: u64, owner: &Address) -> (r: Vec<u8>)
    ensures
        r@ == create_account_data(lamports, space, owner@),
{
    let mut out: Vec<u8> = Vec::new();
    out.push(0);
    out.push(0);
    out.push(0);
    out.push(0);
    push_u64_le(&mut out, lamports);
    push_u64_le(&mut out, space);
    out.extend_from_slice(owner.as_slice());
    proof {
        assert(out@ =~= create_account_data(lamports, space, owner@));
    }
    out
}

pub fn native_transfer_data_bytes(lamports: u64) -> (r: Vec<u8>)
    ensures
        r@ == native_transfer_data(lamports),
{
    let mut out: Vec<u8> = Vec::new();
    out.push(2);
    out.push(0);
    out.push(0);
    out.push(0);
    push_u64_le(&mut out, lamports);
    proof {
        assert(out@ =~= native_transfer_data(lamports));
    }
    out
}

pub fn initialize_mint_data_bytes(
    decimals: u8,
    mint_authority: &Address,
    freeze_authority: &Address,
) -> (r: Vec<u8>)
    ensures
        r@ == initialize_mint_data(decimals, mint_authority@, freeze_authority@),
{
    let mut out: Vec<u8> = Vec::new();
    out.push(0);
    out.push(decimals);
    out.extend_from_slice(mint_authority.as_slice());
    out.push(1);
    out.extend_from_slice(freeze_authority.as_slice());
    proof {
        assert(out@ =~= initialize_mint_data(decimals, mint_authority@, freeze_authority@));
    }
    out
}

pub fn mint_to_data_bytes(amount: u64) -> (r: Vec<u8>)
    ensures
        r@ == mint_to_data(amount),
{
    let mut out: Vec<u8> = Vec::new();
    out.push(7);
    push_u64_le(&mut out, amount);
    proof {
        assert(out@ =~= mint_to_data(amount));
    }
    out
}

pub fn token_transfer_data_bytes(amount: u64) -> (r: Vec<u8>)
    ensures
        r@ == token_transfer_data(amount),
{
    let mut out: Vec<u8> = Vec::new();
    out.push(3);
    push_u64_le(&mut out, amount);
    proof {
        assert(out@ =~= token_transfer_data(amount));
    }
    out
}

pub fn create_associated_account_data_bytes() -> (r: Vec<u8>)
    ensures
        r@ == create_associated_account_data(),
{
    let mut out: Vec<u8> = Vec::new();
    out.push(1);
    proof {
        assert(out@ =~= create_associated_account_data());
    }
    out
}

/// The associated token account that the ledger's convention derives for a
/// wallet and a token mint (under the token program): a pure function of
/// the two addresses.
pub uninterp spec fn ata_of(owner: Seq<u8>, mint: Seq<u8>) -> Seq<u8>;

/// Relies on `spl_associated_token_account::get_associated_token_address`:
/// a deterministic hash-based derivation from (owner, mint) under the token
/// program, yielding a 32-byte address.
#[verifier::external_body]
fn ata_lookup(owner: &Address, mint: &Address) -> (r: Address)
    requires
        owner.wf(),
        mint.wf(),
    ensures
        r@ == ata_of(owner@, mint@),
        r.wf(),
{
    let o = solana_sdk::pubkey::Pubkey::try_from(owner.as_slice()).unwrap();
    let m = solana_sdk::pubkey::Pubkey::try_from(mint.as_slice()).unwrap();
    let a = spl_associated_token_account::get_associated_token_address(&o, &m);
    Address::from_bytes(a.to_bytes().to_vec()).unwrap()
}

/// Derives the associated token account for (owner, mint). Identical
/// inputs always yield the identical output: the result equals the pure
/// derivation `ata_of` on the two addresses' bytes.
pub fn derive_associated_account(owner: &Address, mint: &Address) -> (r: Address)
    requires
        owner.wf(),
        mint.wf(),
    ensures
        r@ == ata_of(owner@, mint@),
        r.wf(),
{
    ata_lookup(owner, mint)
}

} // verus!
