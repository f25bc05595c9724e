use livermore_vesting::pubkey::Pubkey;
use solana_program::pubkey::Pubkey as SolPubkey;
use std::str::FromStr;

const TOKEN_2022_ID: [u8; 32] = [
    6, 221, 246, 225, 238, 117, 143, 222, 24, 66, 93, 188, 228, 108, 205, 218, 182, 26, 252, 77,
    131, 185, 13, 39, 254, 189, 249, 40, 216, 161, 139, 252,
];

const TOKEN_ID: [u8; 32] = [
    6, 221, 246, 225, 215, 101, 161, 147, 217, 203, 225, 70, 206, 235, 121, 172, 28, 180, 133,
    237, 95, 91, 55, 145, 58, 140, 245, 133, 126, 255, 0, 169,
];

const ASSOCIATED_TOKEN_ID: [u8; 32] = [
    140, 151, 37, 143, 78, 36, 137, 241, 187, 61, 16, 41, 20, 142, 13, 131, 11, 90, 19, 153, 218,
    255, 16, 132, 4, 142, 123, 216, 219, 233, 248, 89,
];

const CLOCK_ID: [u8; 32] = [
    6, 167, 213, 23, 24, 199, 116, 201, 40, 86, 99, 152, 105, 29, 94, 182, 139, 94, 184, 163, 155,
    75, 109, 92, 115, 85, 91, 33, 0, 0, 0, 0,
];

#[test]
fn token_2022_program_id_bytes() {
    assert_eq!(spl_token_2022::id().to_bytes(), TOKEN_2022_ID);
    let parsed = SolPubkey::from_str("TokenzQdBNbLqP5VEhdkAS6EPFLC1PHnBqCXEpPxuEb").unwrap();
    assert_eq!(parsed.to_bytes(), TOKEN_2022_ID);
}

#[test]
fn token_program_id_bytes() {
    let parsed = SolPubkey::from_str("TokenkegQfeZyiNwAJbNbGKPFXCWuBvf9Ss623VQ5DA").unwrap();
    assert_eq!(parsed.to_bytes(), TOKEN_ID);
    assert!(spl_token_2022::check_spl_token_program_account(&parsed).is_ok());
    assert!(spl_token_2022::check_spl_token_program_account(&spl_token_2022::id()).is_ok());
    let other = SolPubkey::new_from_array([7; 32]);
    assert!(spl_token_2022::check_spl_token_program_account(&other).is_err());
}

#[test]
fn associated_token_program_id_bytes() {
    assert_eq!(spl_associated_token_account::id().to_bytes(), ASSOCIATED_TOKEN_ID);
    let parsed = SolPubkey::from_str("ATokenGPvbdGVxr1b2hvZbsiqW5xWH25efTNsLJA8knL").unwrap();
    assert_eq!(parsed.to_bytes(), ASSOCIATED_TOKEN_ID);
}

#[test]
fn clock_sysvar_id_bytes() {
    assert_eq!(solana_program::sysvar::clock::id().to_bytes(), CLOCK_ID);
    let parsed = SolPubkey::from_str("SysvarC1ock11111111111111111111111111111111").unwrap();
    assert_eq!(parsed.to_bytes(), CLOCK_ID);
}

#[test]
fn system_program_id_bytes() {
    assert_eq!(solana_program::system_program::id().to_bytes(), [0u8; 32]);
}

#[test]
fn associated_token_address_matches_the_outside_derivation() {
    let wallet = SolPubkey::new_from_array([3; 32]);
    let mint = SolPubkey::new_from_array([4; 32]);
    let expected = spl_associated_token_account::get_associated_token_address_with_program_id(
        &wallet,
        &mint,
        &spl_token_2022::id(),
    );
    let derived = livermore_vesting::seeds::get_associated_token_address_with_program_id(
        &Pubkey::new_from_array(wallet.to_bytes()),
        &Pubkey::new_from_array(mint.to_bytes()),
        &Pubkey::new_from_array(TOKEN_2022_ID),
    );
    assert_eq!(derived, Some(Pubkey::new_from_array(expected.to_bytes())));
    assert_ne!(derived, Some(Pubkey::new_from_array(wallet.to_bytes())));
}
