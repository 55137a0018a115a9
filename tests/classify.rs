use token_events::{
    AuthorityType, EventError, InitializeAccountVersion, InitializeMintVersion, SignerKind,
    TokenBalance, TokenInstruction, Type,
};

fn addr(b: u8) -> Vec<u8> {
    vec![b; 32]
}

fn text(b: u8) -> String {
    bs58::encode(addr(b)).into_string()
}

fn accounts(n: u8) -> Vec<Vec<u8>> {
    (1..=n).map(addr).collect()
}

#[test]
fn transfer_with_three_addresses_has_single_signer() {
    let t = Type::try_from(&TokenInstruction::Transfer { amount: 5 }, &accounts(3)).unwrap();
    match t {
        Type::Transfer(x) => {
            assert_eq!(x.accounts.source, text(1));
            assert_eq!(x.accounts.destination, text(2));
            match x.accounts.signer.kind {
                SignerKind::Single(s) => assert_eq!(s.signer, text(3)),
                other => panic!("unexpected {:?}", other),
            }
        }
        other => panic!("unexpected {:?}", other),
    }
}

#[test]
fn transfer_with_more_addresses_has_multisig() {
    let t = Type::try_from(&TokenInstruction::Transfer { amount: 5 }, &accounts(6)).unwrap();
    match t {
        Type::Transfer(x) => match x.accounts.signer.kind {
            SignerKind::Multisig(m) => {
                assert_eq!(m.multisig_account, text(3));
                assert_eq!(m.signers, vec![text(4), text(5), text(6)]);
            }
            other => panic!("unexpected {:?}", other),
        },
        other => panic!("unexpected {:?}", other),
    }
}

#[test]
fn transfer_short_list_is_missing_account() {
    assert_eq!(
        Type::try_from(&TokenInstruction::Transfer { amount: 5 }, &accounts(2)),
        Err(EventError::MissingAccount)
    );
    assert_eq!(
        Type::try_from(&TokenInstruction::TransferChecked { amount: 5, decimals: 1 }, &accounts(3)),
        Err(EventError::MissingAccount)
    );
}

#[test]
fn account_versions_take_owner_from_list_or_payload() {
    match Type::try_from(&TokenInstruction::InitializeAccount, &accounts(3)).unwrap() {
        Type::InitializeAccount(x) => {
            assert_eq!(x.version, InitializeAccountVersion::V1);
            assert_eq!(x.accounts.owner, text(3));
        }
        other => panic!("unexpected {:?}", other),
    }
    match Type::try_from(&TokenInstruction::InitializeAccount2 { owner: addr(9) }, &accounts(2)).unwrap() {
        Type::InitializeAccount(x) => {
            assert_eq!(x.version, InitializeAccountVersion::V2);
            assert_eq!(x.accounts.mint, text(2));
            assert_eq!(x.accounts.owner, text(9));
        }
        other => panic!("unexpected {:?}", other),
    }
}

#[test]
fn initialize_mint_names_authorities() {
    let op = TokenInstruction::InitializeMint2 {
        decimals: 4,
        mint_authority: addr(7),
        freeze_authority: None,
    };
    match Type::try_from(&op, &accounts(1)).unwrap() {
        Type::InitializeMint(x) => {
            assert_eq!(x.version, InitializeMintVersion::V2);
            assert_eq!(x.instruction.mint_authority, text(7));
            assert_eq!(x.instruction.freeze_authority, None);
            assert_eq!(x.instruction.decimals, 4);
            assert_eq!(x.accounts.mint, text(1));
        }
        other => panic!("unexpected {:?}", other),
    }
}

#[test]
fn multisig_setup_lists_members() {
    match Type::try_from(&TokenInstruction::InitializeMultisig { m: 2 }, &accounts(4)).unwrap() {
        Type::InitializeMultisig(x) => {
            assert_eq!(x.signature_count_threshold, 2);
            assert_eq!(x.accounts.account, text(1));
            assert_eq!(x.accounts.signers, vec![text(2), text(3), text(4)]);
        }
        other => panic!("unexpected {:?}", other),
    }
}

#[test]
fn set_authority_keeps_its_kind() {
    let op = TokenInstruction::SetAuthority {
        authority_type: AuthorityType::AccountOwner,
        new_authority: Some(addr(8)),
    };
    match Type::try_from(&op, &accounts(2)).unwrap() {
        Type::SetAuthority(x) => {
            assert_eq!(x.instruction.authority_type, AuthorityType::AccountOwner);
            assert_eq!(x.instruction.new_authority, Some(text(8)));
            assert_eq!(x.accounts.current_authority, text(2));
        }
        other => panic!("unexpected {:?}", other),
    }
}

#[test]
fn unsupported_kinds_fail() {
    for op in [
        TokenInstruction::GetAccountDataSize,
        TokenInstruction::AmountToUiAmount { amount: 1 },
        TokenInstruction::UiAmountToAmount,
    ] {
        assert_eq!(Type::try_from(&op, &accounts(5)), Err(EventError::UnsupportedOperation));
    }
}

#[test]
fn checked_transfer_mint_decides_regardless_of_balances() {
    let t = Type::try_from(&TokenInstruction::TransferChecked { amount: 1, decimals: 2 }, &accounts(4))
        .unwrap();
    let balances = vec![TokenBalance { mint: text(9), owner: text(9) }];
    assert!(t.is_for_token_contract(&balances, &text(2)));
    assert!(!t.is_for_token_contract(&balances, &text(9)));
    assert!(!t.is_for_token_contract(&vec![], &text(9)));
}

#[test]
fn plain_transfer_uses_balance_mint_or_owner() {
    let t = Type::try_from(&TokenInstruction::Transfer { amount: 1 }, &accounts(3)).unwrap();
    let balances = vec![TokenBalance { mint: text(5), owner: text(6) }];
    assert!(t.is_for_token_contract(&balances, &text(5)));
    assert!(t.is_for_token_contract(&balances, &text(6)));
    assert!(!t.is_for_token_contract(&balances, &text(7)));
}

#[test]
fn unattributed_kinds_never_match() {
    let balances = vec![TokenBalance { mint: text(1), owner: text(2) }];
    let ops = vec![
        (TokenInstruction::ApproveChecked { amount: 1, decimals: 0 }, 4),
        (TokenInstruction::Revoke, 2),
        (TokenInstruction::SetAuthority { authority_type: AuthorityType::MintTokens, new_authority: None }, 2),
        (TokenInstruction::CloseAccount, 3),
        (TokenInstruction::FreezeAccount, 3),
        (TokenInstruction::ThawAccount, 3),
        (TokenInstruction::InitializeMultisig { m: 1 }, 2),
        (TokenInstruction::InitializeImmutableOwner, 1),
        (TokenInstruction::SyncNative, 1),
    ];
    for (op, n) in ops {
        let t = Type::try_from(&op, &accounts(n)).unwrap();
        for c in 1..=4 {
            assert!(!t.is_for_token_contract(&balances, &text(c)));
        }
    }
}

#[test]
fn mint_kinds_match_their_mint() {
    let t = Type::try_from(&TokenInstruction::BurnChecked { amount: 1, decimals: 1 }, &accounts(3)).unwrap();
    assert!(t.is_for_token_contract(&vec![], &text(2)));
    assert!(!t.is_for_token_contract(&vec![], &text(1)));
}

#[test]
fn table_names() {
    let t = Type::try_from(&TokenInstruction::Transfer { amount: 1 }, &accounts(3)).unwrap();
    assert_eq!(t.to_table(), "transfer");
    let t = Type::try_from(&TokenInstruction::MintToChecked { amount: 1, decimals: 0 }, &accounts(3)).unwrap();
    assert_eq!(t.to_table(), "mint_to");
    let t = Type::try_from(&TokenInstruction::InitializeImmutableOwner, &accounts(1)).unwrap();
    assert_eq!(t.to_table(), "initialize_immutable_owner");
    let t = Type::try_from(&TokenInstruction::ThawAccount, &accounts(3)).unwrap();
    assert_eq!(t.to_table(), "thaw_account");
}

#[test]
fn plain_amount_has_no_decimals_and_checked_zero_is_kept() {
    match Type::try_from(&TokenInstruction::Approve { amount: 3 }, &accounts(3)).unwrap() {
        Type::Approve(x) => assert_eq!(x.instruction.decimals, None),
        other => panic!("unexpected {:?}", other),
    }
    match Type::try_from(&TokenInstruction::ApproveChecked { amount: 3, decimals: 0 }, &accounts(4)).unwrap() {
        Type::Approve(x) => {
            assert_eq!(x.instruction.decimals, Some(0));
            assert_eq!(x.accounts.token_mint, Some(text(2)));
            assert_eq!(x.accounts.delegate, text(3));
        }
        other => panic!("unexpected {:?}", other),
    }
}
