#![allow(deprecated)]

use spl_token::instruction::{AuthorityType as SplAuthority, TokenInstruction as Spl};
use spl_token::solana_program::program_option::COption;
use spl_token::solana_program::pubkey::Pubkey;
use token_events::{decode, AuthorityType, TokenInstruction};

fn key(b: u8) -> Pubkey {
    Pubkey::new_from_array([b; 32])
}

#[test]
fn transfer_payload_matches_token_program_encoding() {
    let data = Spl::Transfer { amount: 1_000_000_007 }.pack();
    assert_eq!(decode(&data), Some(TokenInstruction::Transfer { amount: 1_000_000_007 }));
}

#[test]
fn checked_forms_carry_decimals() {
    let data = Spl::TransferChecked { amount: 42, decimals: 0 }.pack();
    assert_eq!(decode(&data), Some(TokenInstruction::TransferChecked { amount: 42, decimals: 0 }));
    let data = Spl::BurnChecked { amount: u64::MAX, decimals: 9 }.pack();
    assert_eq!(decode(&data), Some(TokenInstruction::BurnChecked { amount: u64::MAX, decimals: 9 }));
}

#[test]
fn initialize_mint_keys_round_trip() {
    let data = Spl::InitializeMint {
        mint_authority: key(3),
        freeze_authority: COption::Some(key(4)),
        decimals: 6,
    }
    .pack();
    assert_eq!(
        decode(&data),
        Some(TokenInstruction::InitializeMint {
            decimals: 6,
            mint_authority: vec![3; 32],
            freeze_authority: Some(vec![4; 32]),
        })
    );
    let data = Spl::InitializeMint2 {
        mint_authority: key(5),
        freeze_authority: COption::None,
        decimals: 2,
    }
    .pack();
    assert_eq!(
        decode(&data),
        Some(TokenInstruction::InitializeMint2 {
            decimals: 2,
            mint_authority: vec![5; 32],
            freeze_authority: None,
        })
    );
}

#[test]
fn set_authority_and_account_owner_round_trip() {
    let data = Spl::SetAuthority {
        authority_type: SplAuthority::CloseAccount,
        new_authority: COption::Some(key(9)),
    }
    .pack();
    assert_eq!(
        decode(&data),
        Some(TokenInstruction::SetAuthority {
            authority_type: AuthorityType::CloseAccount,
            new_authority: Some(vec![9; 32]),
        })
    );
    let data = Spl::InitializeAccount3 { owner: key(1) }.pack();
    assert_eq!(decode(&data), Some(TokenInstruction::InitializeAccount3 { owner: vec![1; 32] }));
}

#[test]
fn payload_shapes_agree_with_token_program() {
    let cases: Vec<Vec<u8>> = vec![
        vec![],
        vec![3, 1, 2, 3],
        vec![12, 1, 0, 0, 0, 0, 0, 0, 0],
        vec![6, 4, 0],
        vec![6, 1, 1, 0],
        vec![0, 6],
        vec![25],
        vec![99, 1],
        vec![24, 0xff, 0xfe],
        vec![24, b'1', b'.', b'5'],
        vec![21],
        vec![2],
        vec![19, 3],
        vec![16; 33],
    ];
    for data in cases {
        assert_eq!(decode(&data).is_some(), Spl::unpack(&data).is_ok(), "payload {:?}", data);
    }
}

#[test]
fn unsupported_kinds_still_decode() {
    assert_eq!(decode(&vec![21]), Some(TokenInstruction::GetAccountDataSize));
    let data = Spl::AmountToUiAmount { amount: 5 }.pack();
    assert_eq!(decode(&data), Some(TokenInstruction::AmountToUiAmount { amount: 5 }));
    assert_eq!(decode(&vec![24, b'7']), Some(TokenInstruction::UiAmountToAmount));
}
