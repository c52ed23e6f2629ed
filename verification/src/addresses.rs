//! Program-derived addresses of the protocol's persisted accounts.
//!
//! Every buffer lives at an address derived deterministically from fixed
//! seed prefixes, the involved wallets and the asset; the derivation is
//! the platform's and goes through one trusted wrapper.

use vstd::prelude::*;

use solana_program::pubkey::Pubkey;

verus! {

/// The protocol's own program id.
pub const STEALTH_PROGRAM_ID: [u8; 32] = [
    0x57, 0x11, 0xa3, 0x4e, 0x29, 0x8c, 0x44, 0x90, 0x7c, 0xb4, 0x5f, 0xf6, 0x0e, 0x1e, 0x25, 0xd9,
    0x85, 0x44, 0x7e, 0x03, 0x86, 0x0c, 0xbe, 0x35, 0x66, 0x4b, 0x4f, 0xc1, 0x0d, 0xd6, 0x72, 0x60,
];

/// Seed prefix of the metadata and key accounts ("stealth").
pub const STEALTH_PREFIX: [u8; 7] = [115, 116, 101, 97, 108, 116, 104];

/// Seed prefix of the transfer buffer accounts ("transfer").
pub const TRANSFER_PREFIX: [u8; 8] = [116, 114, 97, 110, 115, 102, 101, 114];

/// The byte views of a seed list.
pub open spec fn seed_views(s: Seq<Vec<u8>>) -> Seq<Seq<u8>> {
    s.map_values(|v: Vec<u8>| v@)
}

/// The program-derived address of a seed list under a program id, `None`
/// when no bump seed yields a valid address; a function of seeds and
/// program id alone.
pub uninterp spec fn pda_of(seeds: Seq<Seq<u8>>, program: Seq<u8>) -> Option<Seq<u8>>;

/// Relies on Pubkey::try_find_program_address: the derived address is a
/// deterministic function of the seeds and the program id, and `None`
/// comes exactly when no bump seed yields a valid derived address.
#[verifier::external_body]
fn try_find_pda(seeds: &Vec<Vec<u8>>, program: &[u8; 32]) -> (r: Option<[u8; 32]>)
    ensures
        r is Some <==> pda_of(seed_views(seeds@), program@) is Some,
        r is Some ==> r->Some_0@ == pda_of(seed_views(seeds@), program@)->Some_0,
{
    let refs: Vec<&[u8]> = seeds.iter().map(|s| s.as_slice()).collect();
    Pubkey::try_find_program_address(&refs, &Pubkey::new_from_array(*program))
        .map(|(key, _bump)| key.to_bytes())
}

/// Copies a byte slice into a fresh seed.
fn seed_from(bytes: &[u8]) -> (r: Vec<u8>)
    ensures
        r@ == bytes@,
{
    let mut out: Vec<u8> = Vec::new();
    crate::codec::push_bytes(&mut out, bytes);
    out
}

/// The address of an asset's protected metadata account.
pub fn get_stealth_address(mint: &[u8; 32]) -> (r: Option<[u8; 32]>)
    ensures
        r is Some <==> pda_of(seq![STEALTH_PREFIX@, mint@], STEALTH_PROGRAM_ID@) is Some,
        r is Some ==> r->Some_0@ == pda_of(
            seq![STEALTH_PREFIX@, mint@],
            STEALTH_PROGRAM_ID@,
        )->Some_0,
{
    let mut seeds: Vec<Vec<u8>> = Vec::new();
    seeds.push(seed_from(STEALTH_PREFIX.as_slice()));
    seeds.push(seed_from(mint.as_slice()));
    proof {
        assert(seed_views(seeds@) =~= seq![STEALTH_PREFIX@, mint@]);
    }
    try_find_pda(&seeds, &STEALTH_PROGRAM_ID)
}

/// The address of a wallet's published ElGamal public key for an asset.
pub fn get_elgamal_pubkey_address(wallet: &[u8; 32], mint: &[u8; 32]) -> (r: Option<[u8; 32]>)
    ensures
        r is Some <==> pda_of(
            seq![STEALTH_PREFIX@, wallet@, mint@],
            STEALTH_PROGRAM_ID@,
        ) is Some,
        r is Some ==> r->Some_0@ == pda_of(
            seq![STEALTH_PREFIX@, wallet@, mint@],
            STEALTH_PROGRAM_ID@,
        )->Some_0,
{
    let mut seeds: Vec<Vec<u8>> = Vec::new();
    seeds.push(seed_from(STEALTH_PREFIX.as_slice()));
    seeds.push(seed_from(wallet.as_slice()));
    seeds.push(seed_from(mint.as_slice()));
    proof {
        assert(seed_views(seeds@) =~= seq![STEALTH_PREFIX@, wallet@, mint@]);
    }
    try_find_pda(&seeds, &STEALTH_PROGRAM_ID)
}

/// The address of the transfer buffer staged for a recipient and an
/// asset.
pub fn get_transfer_buffer_address(wallet: &[u8; 32], mint: &[u8; 32]) -> (r: Option<[u8; 32]>)
    ensures
        r is Some <==> pda_of(
            seq![TRANSFER_PREFIX@, wallet@, mint@],
            STEALTH_PROGRAM_ID@,
        ) is Some,
        r is Some ==> r->Some_0@ == pda_of(
            seq![TRANSFER_PREFIX@, wallet@, mint@],
            STEALTH_PROGRAM_ID@,
        )->Some_0,
{
    let mut seeds: Vec<Vec<u8>> = Vec::new();
    seeds.push(seed_from(TRANSFER_PREFIX.as_slice()));
    seeds.push(seed_from(wallet.as_slice()));
    seeds.push(seed_from(mint.as_slice()));
    proof {
        assert(seed_views(seeds@) =~= seq![TRANSFER_PREFIX@, wallet@, mint@]);
    }
    try_find_pda(&seeds, &STEALTH_PROGRAM_ID)
}

} // verus!
