use solana_program::pubkey::Pubkey;

use stealth::addresses::get_elgamal_pubkey_address;
use stealth::addresses::get_stealth_address;
use stealth::addresses::get_transfer_buffer_address;
use stealth::addresses::STEALTH_PREFIX;
use stealth::addresses::STEALTH_PROGRAM_ID;
use stealth::addresses::TRANSFER_PREFIX;

#[test]
fn seed_prefixes_spell_their_words() {
    assert_eq!(&STEALTH_PREFIX, b"stealth");
    assert_eq!(&TRANSFER_PREFIX, b"transfer");
}

#[test]
fn stealth_address_matches_platform_derivation() {
    let mint = [3u8; 32];
    let derived = get_stealth_address(&mint).expect("derivation");
    let program = Pubkey::new_from_array(STEALTH_PROGRAM_ID);
    let (expected, _bump) =
        Pubkey::try_find_program_address(&[&STEALTH_PREFIX, &mint], &program).expect("pda");
    assert_eq!(derived, expected.to_bytes());
}

#[test]
fn elgamal_and_transfer_addresses_match_platform_derivation() {
    let wallet = [5u8; 32];
    let mint = [6u8; 32];
    let program = Pubkey::new_from_array(STEALTH_PROGRAM_ID);

    let elgamal = get_elgamal_pubkey_address(&wallet, &mint).expect("derivation");
    let (expected_e, _) =
        Pubkey::try_find_program_address(&[&STEALTH_PREFIX, &wallet, &mint], &program)
            .expect("pda");
    assert_eq!(elgamal, expected_e.to_bytes());

    let transfer = get_transfer_buffer_address(&wallet, &mint).expect("derivation");
    let (expected_t, _) =
        Pubkey::try_find_program_address(&[&TRANSFER_PREFIX, &wallet, &mint], &program)
            .expect("pda");
    assert_eq!(transfer, expected_t.to_bytes());
}

#[test]
fn distinct_recipients_get_distinct_transfer_buffers() {
    let mint = [6u8; 32];
    let a = get_transfer_buffer_address(&[1u8; 32], &mint).expect("derivation");
    let b = get_transfer_buffer_address(&[2u8; 32], &mint).expect("derivation");
    assert_ne!(a, b);
}
