use crate::classify::{classified_as, name_of};
use crate::layout::TokenInstruction;
use crate::model::Type;
use vstd::prelude::*;

verus! {

/// One entry of a transaction's token balances before it ran.
#[derive(Debug, PartialEq, Eq)]
pub struct TokenBalance {
    pub mint: String,
    pub owner: String,
}

/// Some balance entry names the contract as its mint or its owner.
pub open spec fn balances_mention(bal: Seq<TokenBalance>, c: Seq<char>) -> bool {
    exists|i: int| 0 <= i < bal.len() && ((#[trigger] bal[i]).mint@ == c || bal[i].owner@ == c)
}

/// Whether the event concerns the token contract `c`. Kinds whose accounts
/// carry no mint are never attributed to a contract.
pub open spec fn for_contract(t: Type, bal: Seq<TokenBalance>, c: Seq<char>) -> bool {
    match t {
        Type::Transfer(x) => match x.accounts.token_mint {
            Some(m) => m@ == c,
            None => balances_mention(bal, c),
        },
        Type::InitializeMint(x) => x.accounts.mint@ == c,
        Type::InitializeAccount(x) => x.accounts.mint@ == c,
        Type::MintTo(x) => x.accounts.mint@ == c,
        Type::Burn(x) => x.accounts.mint@ == c,
        Type::InitializeImmutableOwner(_)
        | Type::InitializeMultisig(_)
        | Type::Approve(_)
        | Type::Revoke(_)
        | Type::SetAuthority(_)
        | Type::CloseAccount(_)
        | Type::FreezeAccount(_)
        | Type::ThawAccount(_)
        | Type::SyncNative(_) => false,
    }
}

/// The same decision taken on the decoded instruction and its address list.
pub open spec fn op_included(
    op: TokenInstruction,
    a: Seq<Vec<u8>>,
    bal: Seq<TokenBalance>,
    c: Seq<char>,
) -> bool {
    match op {
        TokenInstruction::Transfer { .. } => balances_mention(bal, c),
        TokenInstruction::TransferChecked { .. } => name_of(a, 1) == c,
        TokenInstruction::InitializeMint { .. } | TokenInstruction::InitializeMint2 { .. } => name_of(a, 0) == c,
        TokenInstruction::InitializeAccount
        | TokenInstruction::InitializeAccount2 { .. }
        | TokenInstruction::InitializeAccount3 { .. } => name_of(a, 1) == c,
        TokenInstruction::MintTo { .. } | TokenInstruction::MintToChecked { .. } => name_of(a, 0) == c,
        TokenInstruction::Burn { .. } | TokenInstruction::BurnChecked { .. } => name_of(a, 1) == c,
        _ => false,
    }
}

fn balances_name(balances: &Vec<TokenBalance>, contract: &String) -> (r: bool)
    ensures
        r == balances_mention(balances@, contract@),
{
    let mut i: usize = 0;
    while i < balances.len()
        invariant
            i <= balances@.len(),
            forall|k: int|
                0 <= k < i ==> !((#[trigger] balances@[k]).mint@ == contract@ || balances@[k].owner@
                    == contract@),
        decreases balances@.len() - i,
    {
        if balances[i].mint == *contract || balances[i].owner == *contract {
            return true;
        }
        i = i + 1;
    }
    false
}

impl Type {
    /// Whether this event concerns the token contract `contract`, given the
    /// token balances of its transaction before it ran.
    pub fn is_for_token_contract(&self, balances: &Vec<TokenBalance>, contract: &String) -> (r: bool)
        ensures
            r == for_contract(*self, balances@, contract@),
    {
        match self {
            Type::Transfer(x) => match &x.accounts.token_mint {
                Some(m) => *m == *contract,
                None => balances_name(balances, contract),
            },
            Type::InitializeMint(x) => x.accounts.mint == *contract,
            Type::InitializeAccount(x) => x.accounts.mint == *contract,
            Type::MintTo(x) => x.accounts.mint == *contract,
            Type::Burn(x) => x.accounts.mint == *contract,
            Type::InitializeImmutableOwner(_)
            | Type::InitializeMultisig(_)
            | Type::Approve(_)
            | Type::Revoke(_)
            | Type::SetAuthority(_)
            | Type::CloseAccount(_)
            | Type::FreezeAccount(_)
            | Type::ThawAccount(_)
            | Type::SyncNative(_) => false,
        }
    }
}

/// Deciding on the event gives what deciding on the instruction it was bound
/// from gives.
pub proof fn lemma_for_contract_of_classified(
    op: TokenInstruction,
    a: Seq<Vec<u8>>,
    t: Type,
    bal: Seq<TokenBalance>,
    c: Seq<char>,
)
    requires
        classified_as(op, a, t),
    ensures
        for_contract(t, bal, c) == op_included(op, a, bal, c),
{
}

/// A transfer that names its mint concerns exactly that mint, whatever the
/// balance entries hold.
pub proof fn lemma_checked_transfer_ignores_balances(t: Type, bal: Seq<TokenBalance>, c: Seq<char>)
    requires
        t matches Type::Transfer(x) && x.accounts.token_mint is Some,
    ensures
        for_contract(t, bal, c) <==> (t->Transfer_0.accounts.token_mint->Some_0@ == c),
{
}

/// Approvals, revocations, authority changes, closes, freezes, thaws,
/// multisig and immutable-owner setups and native syncs never concern a contract.
pub proof fn lemma_unattributed_kinds_never_match(t: Type, bal: Seq<TokenBalance>, c: Seq<char>)
    requires
        t is Approve || t is Revoke || t is SetAuthority || t is CloseAccount || t is FreezeAccount
            || t is ThawAccount || t is InitializeMultisig || t is InitializeImmutableOwner
            || t is SyncNative,
    ensures
        !for_contract(t, bal, c),
{
}

} // verus!
