use token_events::{
    map_block, Clock, Event, EventError, Instruction, SignerKind, TokenBalance, TokenInstruction,
    Transaction, TransactionMeta, Type,
};

fn program() -> Vec<u8> {
    spl_token::ID.to_bytes().to_vec()
}

fn addr(b: u8) -> Vec<u8> {
    vec![b; 32]
}

fn text(b: u8) -> String {
    bs58::encode(addr(b)).into_string()
}

fn transfer_checked(amount: u64, mint: u8) -> Instruction {
    let mut data = vec![12];
    data.extend_from_slice(&amount.to_le_bytes());
    data.push(6);
    Instruction { program_id: program(), data, accounts: vec![addr(1), addr(mint), addr(2), addr(3)] }
}

fn mint_to(amount: u64, mint: u8) -> Instruction {
    let mut data = vec![7];
    data.extend_from_slice(&amount.to_le_bytes());
    Instruction { program_id: program(), data, accounts: vec![addr(mint), addr(2), addr(3)] }
}

fn tx(id: &str, instructions: Vec<Instruction>) -> Transaction {
    Transaction {
        id: id.to_string(),
        meta: Some(TransactionMeta { pre_token_balances: vec![] }),
        instructions,
    }
}

fn clock() -> Clock {
    Clock { id: "hash".to_string(), number: 77, timestamp: 1_700_000_000 }
}

fn positions(events: &[Event]) -> Vec<(String, u32)> {
    events.iter().map(|e| (e.txn_id.clone(), e.instruction_index)).collect()
}

#[test]
fn events_keep_ledger_order() {
    let txs = vec![
        tx("t1", vec![transfer_checked(1, 50), mint_to(2, 50)]),
        tx("t2", vec![transfer_checked(3, 50)]),
    ];
    let events = map_block(&clock(), &txs, &text(50)).data;
    assert_eq!(
        positions(&events),
        vec![("t1".to_string(), 0), ("t1".to_string(), 1), ("t2".to_string(), 0)]
    );
    assert_eq!(events[2].block_height, 77);
    assert_eq!(events[2].block_timestamp, 1_700_000_000);
    assert_eq!(events[2].block_hash, "hash");
    match &events[0].event_type {
        Type::Transfer(t) => {
            assert_eq!(t.instruction.amount, 1);
            assert_eq!(t.instruction.decimals, Some(6));
            assert_eq!(t.accounts.token_mint, Some(text(50)));
            assert_eq!(t.accounts.destination, text(2));
        }
        other => panic!("unexpected {:?}", other),
    }
}

#[test]
fn other_contracts_and_programs_are_left_out() {
    let mut foreign = transfer_checked(9, 50);
    foreign.program_id = addr(8);
    let txs = vec![tx("t1", vec![transfer_checked(1, 51), foreign, mint_to(2, 50)])];
    let events = map_block(&clock(), &txs, &text(50)).data;
    assert_eq!(positions(&events), vec![("t1".to_string(), 2)]);
}

#[test]
fn short_account_list_is_skipped() {
    let mut short = mint_to(5, 50);
    short.accounts.pop();
    assert_eq!(
        Type::try_from(&TokenInstruction::MintTo { amount: 5 }, &short.accounts),
        Err(EventError::MissingAccount)
    );
    let txs = vec![tx("t1", vec![short, mint_to(6, 50)])];
    let events = map_block(&clock(), &txs, &text(50)).data;
    assert_eq!(positions(&events), vec![("t1".to_string(), 1)]);
}

#[test]
fn unsupported_kind_is_skipped() {
    let size = Instruction { program_id: program(), data: vec![21], accounts: vec![addr(50)] };
    assert_eq!(
        Type::try_from(&TokenInstruction::GetAccountDataSize, &size.accounts),
        Err(EventError::UnsupportedOperation)
    );
    let txs = vec![tx("t1", vec![mint_to(1, 50), size, mint_to(2, 50)])];
    let events = map_block(&clock(), &txs, &text(50)).data;
    assert_eq!(positions(&events), vec![("t1".to_string(), 0), ("t1".to_string(), 2)]);
}

#[test]
fn undecodable_payload_is_skipped() {
    let bad = Instruction { program_id: program(), data: vec![7, 1, 2], accounts: vec![addr(50)] };
    let txs = vec![tx("t1", vec![bad, mint_to(2, 50)])];
    let events = map_block(&clock(), &txs, &text(50)).data;
    assert_eq!(positions(&events), vec![("t1".to_string(), 1)]);
}

#[test]
fn transaction_without_meta_is_skipped() {
    let mut t1 = tx("t1", vec![mint_to(1, 50)]);
    t1.meta = None;
    let txs = vec![t1, tx("t2", vec![mint_to(2, 50)])];
    let events = map_block(&clock(), &txs, &text(50)).data;
    assert_eq!(positions(&events), vec![("t2".to_string(), 0)]);
}

#[test]
fn empty_block_yields_no_events() {
    assert!(map_block(&clock(), &vec![], &text(50)).data.is_empty());
}

#[test]
fn plain_transfer_matches_through_balances() {
    let mut data = vec![3];
    data.extend_from_slice(&10u64.to_le_bytes());
    let plain = Instruction { program_id: program(), data, accounts: vec![addr(1), addr(2), addr(3)] };
    let mut t1 = tx("t1", vec![plain]);
    t1.meta = Some(TransactionMeta {
        pre_token_balances: vec![TokenBalance { mint: text(50), owner: text(1) }],
    });
    let events = map_block(&clock(), &vec![t1], &text(50)).data;
    assert_eq!(events.len(), 1);
    match &events[0].event_type {
        Type::Transfer(t) => {
            assert_eq!(t.instruction.decimals, None);
            assert_eq!(t.accounts.token_mint, None);
            assert!(matches!(t.accounts.signer.kind, SignerKind::Single(_)));
        }
        other => panic!("unexpected {:?}", other),
    }
}
