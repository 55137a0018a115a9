use crate::address::is_token_program;
use crate::address::is_token_program_id;
use crate::classify::{classified_as, min_accounts, supported};
use crate::filter::{lemma_for_contract_of_classified, op_included, TokenBalance};
use crate::layout::{decode, decoded_as, op_tag, well_formed, TokenInstruction};
use crate::model::{AmountInstruction, Event, Events, Type};
use vstd::bytes::{lemma_auto_spec_u64_to_from_le_bytes, spec_u64_to_le_bytes};
use vstd::prelude::*;

verus! {

/// One instruction as the ledger holds it.
#[derive(Debug, PartialEq, Eq)]
pub struct Instruction {
    pub program_id: Vec<u8>,
    pub data: Vec<u8>,
    pub accounts: Vec<Vec<u8>>,
}

/// What a transaction's execution left behind.
#[derive(Debug, PartialEq, Eq)]
pub struct TransactionMeta {
    pub pre_token_balances: Vec<TokenBalance>,
}

/// A transaction; `meta` is absent where its execution is unknown, and
/// `instructions` lists every instruction it ran, in order.
#[derive(Debug, PartialEq, Eq)]
pub struct Transaction {
    pub id: String,
    pub meta: Option<TransactionMeta>,
    pub instructions: Vec<Instruction>,
}

/// The block being read: its hash, height and timestamp.
#[derive(Debug, PartialEq, Eq)]
pub struct Clock {
    pub id: String,
    pub number: u64,
    pub timestamp: i64,
}

/// The instruction that a well-formed payload holds.
pub open spec fn decoded(d: Seq<u8>) -> TokenInstruction {
    choose|op: TokenInstruction| decoded_as(d, op)
}

/// The instruction yields an event for contract `c`: it belongs to the token
/// program, decodes, is supported, has its accounts, and concerns `c`.
pub open spec fn instruction_included(ins: Instruction, bal: Seq<TokenBalance>, c: Seq<char>) -> bool {
    &&& is_token_program_id(ins.program_id@)
    &&& well_formed(ins.data@)
    &&& supported(decoded(ins.data@))
    &&& ins.accounts@.len() >= min_accounts(decoded(ins.data@))
    &&& op_included(decoded(ins.data@), ins.accounts@, bal, c)
}

/// Positions (transaction, instruction) among the first `n` instructions of
/// transaction `tx`, at index `ti`, that yield an event for `c`.
pub open spec fn tx_positions(tx: Transaction, ti: int, c: Seq<char>, n: int) -> Seq<(int, int)>
    decreases n,
{
    if n <= 0 {
        Seq::empty()
    } else {
        let ins = tx.instructions@[n - 1];
        tx_positions(tx, ti, c, n - 1) + if instruction_included(
            ins,
            tx.meta->Some_0.pre_token_balances@,
            c,
        ) {
            seq![(ti, n - 1)]
        } else {
            Seq::empty()
        }
    }
}

/// Positions among the first `m` transactions that yield an event for `c`, in
/// ledger order; transactions without execution metadata yield none.
pub open spec fn block_positions(txs: Seq<Transaction>, c: Seq<char>, m: int) -> Seq<(int, int)>
    decreases m,
{
    if m <= 0 {
        Seq::empty()
    } else {
        let tx = txs[m - 1];
        block_positions(txs, c, m - 1) + if tx.meta is Some {
            tx_positions(tx, m - 1, c, tx.instructions@.len() as int)
        } else {
            Seq::empty()
        }
    }
}

/// `e` is the event of the instruction at position `p` of the block.
pub open spec fn event_at(e: Event, clock: Clock, txs: Seq<Transaction>, p: (int, int)) -> bool {
    let tx = txs[p.0];
    let ins = tx.instructions@[p.1];
    &&& e.txn_id@ == tx.id@
    &&& e.block_height == clock.number
    &&& e.block_timestamp == clock.timestamp
    &&& e.block_hash@ == clock.id@
    &&& e.instruction_index == p.1 as u32
    &&& classified_as(decoded(ins.data@), ins.accounts@, e.event_type)
}

/// Two readings of one payload are the same kind of instruction, so they
/// agree on support, on the accounts they need and on the contracts they concern.
pub proof fn lemma_reading_fixes_kind(d: Seq<u8>, op1: TokenInstruction, op2: TokenInstruction)
    requires
        decoded_as(d, op1),
        decoded_as(d, op2),
    ensures
        supported(op1) == supported(op2),
        min_accounts(op1) == min_accounts(op2),
        forall|a: Seq<Vec<u8>>, bal: Seq<TokenBalance>, c: Seq<char>|
            #[trigger] op_included(op1, a, bal, c) == op_included(op2, a, bal, c),
        forall|a: Seq<Vec<u8>>, t: Type|
            #[trigger] classified_as(op1, a, t) == classified_as(op2, a, t),
{
    assert(op_tag(op1) == op_tag(op2));
}

/// `e` is the event of instruction `ins`, at index `j` of transaction `tx_id`.
pub open spec fn event_of(e: Event, clock: Clock, tx_id: Seq<char>, ins: Instruction, j: int) -> bool {
    &&& e.txn_id@ == tx_id
    &&& e.block_height == clock.number
    &&& e.block_timestamp == clock.timestamp
    &&& e.block_hash@ == clock.id@
    &&& e.instruction_index == j as u32
    &&& classified_as(decoded(ins.data@), ins.accounts@, e.event_type)
}

fn instruction_event(
    clock: &Clock,
    tx_id: &String,
    balances: &Vec<TokenBalance>,
    ins: &Instruction,
    j: usize,
    contract: &String,
) -> (r: Option<Event>)
    ensures
        r is Some <==> instruction_included(*ins, balances@, contract@),
        r matches Some(e) ==> event_of(e, *clock, tx_id@, *ins, j as int),
{
    if !is_token_program(&ins.program_id) {
        return None;
    }
    let op = match decode(&ins.data) {
        None => return None,
        Some(op) => op,
    };
    proof {
        lemma_reading_fixes_kind(ins.data@, op, decoded(ins.data@));
    }
    let t = match Type::try_from(&op, &ins.accounts) {
        Err(_) => return None,
        Ok(t) => t,
    };
    proof {
        lemma_for_contract_of_classified(op, ins.accounts@, t, balances@, contract@);
    }
    if !t.is_for_token_contract(balances, contract) {
        return None;
    }
    Some(
        Event {
            txn_id: tx_id.clone(),
            block_height: clock.number,
            block_timestamp: clock.timestamp,
            block_hash: clock.id.clone(),
            instruction_index: j as u32,
            event_type: t,
        },
    )
}

/// The events of a block for the token contract `contract`: one per
/// instruction that yields one, in transaction order and, within a
/// transaction, in instruction order. Instructions that fail to decode, are
/// unsupported or lack accounts are skipped; nothing else depends on them.
pub fn map_block(clock: &Clock, transactions: &Vec<Transaction>, contract: &String) -> (r: Events)
    ensures
        r.data@.len() == block_positions(transactions@, contract@, transactions@.len() as int).len(),
        forall|k: int|
            0 <= k < r.data@.len() ==> event_at(
                #[trigger] r.data@[k],
                *clock,
                transactions@,
                block_positions(transactions@, contract@, transactions@.len() as int)[k],
            ),
{
    let ghost txs = transactions@;
    let ghost c = contract@;
    let mut data: Vec<Event> = Vec::new();
    let mut ti: usize = 0;
    while ti < transactions.len()
        invariant
            ti <= txs.len(),
            txs == transactions@,
            c == contract@,
            data@.len() == block_positions(txs, c, ti as int).len(),
            forall|k: int|
                0 <= k < data@.len() ==> event_at(
                    #[trigger] data@[k],
                    *clock,
                    txs,
                    block_positions(txs, c, ti as int)[k],
                ),
        decreases txs.len() - ti,
    {
        let tx = &transactions[ti];
        let ghost before = block_positions(txs, c, ti as int);
        match &tx.meta {
            None => {},
            Some(meta) => {
                let mut j: usize = 0;
                while j < tx.instructions.len()
                    invariant
                        j <= tx.instructions@.len(),
                        ti < txs.len(),
                        txs == transactions@,
                        c == contract@,
                        *tx == txs[ti as int],
                        tx.meta == Some(*meta),
                        before == block_positions(txs, c, ti as int),
                        data@.len() == before.len() + tx_positions(*tx, ti as int, c, j as int).len(),
                        forall|k: int|
                            0 <= k < data@.len() ==> event_at(
                                #[trigger] data@[k],
                                *clock,
                                txs,
                                (before + tx_positions(*tx, ti as int, c, j as int))[k],
                            ),
                    decreases tx.instructions@.len() - j,
                {
                    let ins = &tx.instructions[j];
                    let ev = instruction_event(clock, &tx.id, &meta.pre_token_balances, ins, j, contract);
                    let ghost old_data = data@;
                    let ghost prev = before + tx_positions(*tx, ti as int, c, j as int);
                    let ghost next = before + tx_positions(*tx, ti as int, c, j + 1);
                    assert(tx.instructions@[j as int] == *ins);
                    assert(tx.meta->Some_0.pre_token_balances@ == meta.pre_token_balances@);
                    let ghost inc = instruction_included(*ins, meta.pre_token_balances@, c);
                    assert(tx_positions(*tx, ti as int, c, j + 1) == tx_positions(*tx, ti as int, c, j as int) + if inc {
                        seq![(ti as int, j as int)]
                    } else {
                        Seq::<(int, int)>::empty()
                    });
                    match ev {
                        Some(e) => {
                            data.push(e);
                            proof {
                                assert(next =~= prev.push((ti as int, j as int)));
                            }
                        },
                        None => {
                            proof {
                                assert(next =~= prev);
                            }
                        },
                    }
                    assert forall|k: int| 0 <= k < data@.len() implies event_at(
                        #[trigger] data@[k],
                        *clock,
                        txs,
                        next[k],
                    ) by {
                        if k < old_data.len() {
                            assert(data@[k] == old_data[k]);
                            assert(next[k] == prev[k]);
                        }
                    }
                    j = j + 1;
                }
            },
        }
        assert(block_positions(txs, c, ti + 1) == before + if tx.meta is Some {
            tx_positions(*tx, ti as int, c, tx.instructions@.len() as int)
        } else {
            Seq::empty()
        });
        ti = ti + 1;
    }
    Events { data }
}

/// The parameters an amount-carrying event records.
pub open spec fn amount_params(t: Type) -> Option<AmountInstruction> {
    match t {
        Type::Transfer(x) => Some(x.instruction),
        Type::Approve(x) => Some(x.instruction),
        Type::MintTo(x) => Some(x.instruction),
        Type::Burn(x) => Some(x.instruction),
        _ => None,
    }
}

/// The payload of a plain amount instruction: its leading byte, then the
/// amount in eight little-endian bytes.
pub open spec fn encode_amount(tag: u8, amount: u64) -> Seq<u8> {
    seq![tag] + spec_u64_to_le_bytes(amount)
}

/// The payload of a checked amount instruction: as a plain one, then the decimals.
pub open spec fn encode_amount_decimals(tag: u8, amount: u64, decimals: u8) -> Seq<u8> {
    seq![tag] + spec_u64_to_le_bytes(amount) + seq![decimals]
}

/// A plain transfer, approval, mint or burn, encoded then decoded and bound,
/// records its amount and no decimals.
pub proof fn lemma_amount_round_trip(tag: u8, amount: u64, a: Seq<Vec<u8>>, t: Type)
    requires
        tag == 3 || tag == 4 || tag == 7 || tag == 8,
        classified_as(decoded(encode_amount(tag, amount)), a, t),
    ensures
        well_formed(encode_amount(tag, amount)),
        amount_params(t) == Some(AmountInstruction { amount, decimals: None }),
{
    lemma_auto_spec_u64_to_from_le_bytes();
    let d = encode_amount(tag, amount);
    assert(d.subrange(1, 9) =~= spec_u64_to_le_bytes(amount));
    let op = if tag == 3 {
        TokenInstruction::Transfer { amount }
    } else if tag == 4 {
        TokenInstruction::Approve { amount }
    } else if tag == 7 {
        TokenInstruction::MintTo { amount }
    } else {
        TokenInstruction::Burn { amount }
    };
    assert(decoded_as(d, op));
    lemma_reading_fixes_kind(d, op, decoded(d));
}

/// A checked transfer, approval, mint or burn, encoded then decoded and bound,
/// records its amount and its decimals.
pub proof fn lemma_amount_decimals_round_trip(
    tag: u8,
    amount: u64,
    decimals: u8,
    a: Seq<Vec<u8>>,
    t: Type,
)
    requires
        12 <= tag <= 15,
        classified_as(decoded(encode_amount_decimals(tag, amount, decimals)), a, t),
    ensures
        well_formed(encode_amount_decimals(tag, amount, decimals)),
        amount_params(t) == Some(AmountInstruction { amount, decimals: Some(decimals as u32) }),
{
    lemma_auto_spec_u64_to_from_le_bytes();
    let d = encode_amount_decimals(tag, amount, decimals);
    assert(d.subrange(1, 9) =~= spec_u64_to_le_bytes(amount));
    let op = if tag == 12 {
        TokenInstruction::TransferChecked { amount, decimals }
    } else if tag == 13 {
        TokenInstruction::ApproveChecked { amount, decimals }
    } else if tag == 14 {
        TokenInstruction::MintToChecked { amount, decimals }
    } else {
        TokenInstruction::BurnChecked { amount, decimals }
    };
    assert(decoded_as(d, op));
    lemma_reading_fixes_kind(d, op, decoded(d));
}

/// An instruction whose address list is one short of what its kind needs
/// yields no event.
pub proof fn lemma_short_account_list_yields_nothing(
    ins: Instruction,
    op: TokenInstruction,
    bal: Seq<TokenBalance>,
    c: Seq<char>,
)
    requires
        decoded_as(ins.data@, op),
        ins.accounts@.len() + 1 == min_accounts(op),
    ensures
        !instruction_included(ins, bal, c),
{
    if well_formed(ins.data@) {
        lemma_reading_fixes_kind(ins.data@, op, decoded(ins.data@));
    }
}

/// An instruction of an unsupported kind yields no event.
pub proof fn lemma_unsupported_yields_nothing(
    ins: Instruction,
    op: TokenInstruction,
    bal: Seq<TokenBalance>,
    c: Seq<char>,
)
    requires
        decoded_as(ins.data@, op),
        !supported(op),
    ensures
        !instruction_included(ins, bal, c),
{
    if well_formed(ins.data@) {
        lemma_reading_fixes_kind(ins.data@, op, decoded(ins.data@));
    }
}

/// Position `p` comes before position `q` in ledger order.
pub open spec fn precedes(p: (int, int), q: (int, int)) -> bool {
    p.0 < q.0 || (p.0 == q.0 && p.1 < q.1)
}

proof fn lemma_tx_positions_ordered(tx: Transaction, ti: int, c: Seq<char>, n: int)
    ensures
        forall|k: int|
            0 <= k < tx_positions(tx, ti, c, n).len() ==> (#[trigger] tx_positions(tx, ti, c, n)[k]).0
                == ti && tx_positions(tx, ti, c, n)[k].1 < n,
        forall|k1: int, k2: int|
            0 <= k1 < k2 < tx_positions(tx, ti, c, n).len() ==> (#[trigger] tx_positions(
                tx,
                ti,
                c,
                n,
            )[k1]).1 < (#[trigger] tx_positions(tx, ti, c, n)[k2]).1,
    decreases n,
{
    if n > 0 {
        lemma_tx_positions_ordered(tx, ti, c, n - 1);
        let prev = tx_positions(tx, ti, c, n - 1);
        let cur = tx_positions(tx, ti, c, n);
        assert forall|k: int| 0 <= k < cur.len() implies (#[trigger] cur[k]).0 == ti && cur[k].1 < n by {
            if k < prev.len() {
                assert(cur[k] == prev[k]);
            }
        }
        assert forall|k1: int, k2: int| 0 <= k1 < k2 < cur.len() implies (#[trigger] cur[k1]).1 < (
        #[trigger] cur[k2]).1 by {
            assert(cur[k1] == prev[k1]);
            if k2 < prev.len() {
                assert(cur[k2] == prev[k2]);
            }
        }
    }
}

proof fn lemma_block_positions_ordered(txs: Seq<Transaction>, c: Seq<char>, m: int)
    requires
        0 <= m <= txs.len(),
    ensures
        forall|k: int|
            0 <= k < block_positions(txs, c, m).len() ==> (#[trigger] block_positions(
                txs,
                c,
                m,
            )[k]).0 < m,
        forall|k1: int, k2: int|
            0 <= k1 < k2 < block_positions(txs, c, m).len() ==> precedes(
                #[trigger] block_positions(txs, c, m)[k1],
                #[trigger] block_positions(txs, c, m)[k2],
            ),
    decreases m,
{
    if m > 0 {
        lemma_block_positions_ordered(txs, c, m - 1);
        let tx = txs[m - 1];
        lemma_tx_positions_ordered(tx, m - 1, c, tx.instructions@.len() as int);
        let prev = block_positions(txs, c, m - 1);
        let tail = if tx.meta is Some {
            tx_positions(tx, m - 1, c, tx.instructions@.len() as int)
        } else {
            Seq::empty()
        };
        let cur = block_positions(txs, c, m);
        assert(cur == prev + tail);
        assert forall|k: int| 0 <= k < cur.len() implies (#[trigger] cur[k]).0 < m by {
            if k < prev.len() {
                assert(cur[k] == prev[k]);
            } else {
                assert(cur[k] == tail[k - prev.len()]);
            }
        }
        assert forall|k1: int, k2: int| 0 <= k1 < k2 < cur.len() implies precedes(
            #[trigger] cur[k1],
            #[trigger] cur[k2],
        ) by {
            if k2 < prev.len() {
                assert(cur[k1] == prev[k1]);
                assert(cur[k2] == prev[k2]);
            } else if k1 < prev.len() {
                assert(cur[k1] == prev[k1]);
                assert(cur[k2] == tail[k2 - prev.len()]);
            } else {
                assert(cur[k1] == tail[k1 - prev.len()]);
                assert(cur[k2] == tail[k2 - prev.len()]);
            }
        }
    }
}

/// The events of a block come in ledger order: by transaction, then by
/// instruction within a transaction, each position once.
pub proof fn lemma_events_in_ledger_order(txs: Seq<Transaction>, c: Seq<char>)
    ensures
        forall|k1: int, k2: int|
            0 <= k1 < k2 < block_positions(txs, c, txs.len() as int).len() ==> precedes(
                #[trigger] block_positions(txs, c, txs.len() as int)[k1],
                #[trigger] block_positions(txs, c, txs.len() as int)[k2],
            ),
{
    lemma_block_positions_ordered(txs, c, txs.len() as int);
}

} // verus!
