use crate::layout::AuthorityType;
use vstd::prelude::*;

verus! {

/// Why an instruction of the token program yields no event.
#[derive(Clone, Copy, Debug, PartialEq, Eq, Structural)]
pub enum EventError {
    /// The payload is not a well-formed instruction.
    DecodeError,
    /// The instruction is recognized but not modeled as an event.
    UnsupportedOperation,
    /// The address list is shorter than the instruction's role layout.
    MissingAccount,
}

/// One signing address.
#[derive(Debug, PartialEq, Eq)]
pub struct SingleSignature {
    pub signer: String,
}

/// A multisig account and the co-signers that signed for it.
#[derive(Debug, PartialEq, Eq)]
pub struct MultiSignature {
    pub multisig_account: String,
    pub signers: Vec<String>,
}

#[derive(Debug, PartialEq, Eq)]
pub enum SignerKind {
    Single(SingleSignature),
    Multisig(MultiSignature),
}

#[derive(Debug, PartialEq, Eq)]
pub struct Signer {
    pub kind: SignerKind,
}

/// Amount parameters; `decimals` is present for the checked forms only.
#[derive(Debug, PartialEq, Eq)]
pub struct AmountInstruction {
    pub amount: u64,
    pub decimals: Option<u32>,
}

#[derive(Debug, PartialEq, Eq)]
pub struct TransferAccounts {
    pub source: String,
    pub destination: String,
    pub signer: Signer,
    pub token_mint: Option<String>,
}

#[derive(Debug, PartialEq, Eq)]
pub struct Transfer {
    pub instruction: AmountInstruction,
    pub accounts: TransferAccounts,
}

#[derive(Clone, Copy, Debug, PartialEq, Eq, Structural)]
pub enum InitializeMintVersion {
    V1,
    V2,
}

#[derive(Debug, PartialEq, Eq)]
pub struct InitializeMintInstruction {
    pub mint_authority: String,
    pub freeze_authority: Option<String>,
    pub decimals: u32,
}

#[derive(Debug, PartialEq, Eq)]
pub struct InitializeMintAccounts {
    pub mint: String,
}

#[derive(Debug, PartialEq, Eq)]
pub struct InitializeMint {
    pub version: InitializeMintVersion,
    pub instruction: InitializeMintInstruction,
    pub accounts: InitializeMintAccounts,
}

#[derive(Clone, Copy, Debug, PartialEq, Eq, Structural)]
pub enum InitializeAccountVersion {
    V1,
    V2,
    V3,
}

#[derive(Debug, PartialEq, Eq)]
pub struct InitializeAccountAccounts {
    pub account: String,
    pub mint: String,
    pub owner: String,
}

#[derive(Debug, PartialEq, Eq)]
pub struct InitializeAccount {
    pub version: InitializeAccountVersion,
    pub accounts: InitializeAccountAccounts,
}

#[derive(Clone, Copy, Debug, PartialEq, Eq, Structural)]
pub enum InitializeMultisigVersion {
    V1,
    V2,
}

#[derive(Debug, PartialEq, Eq)]
pub struct InitializeMultisigAccounts {
    pub account: String,
    pub signers: Vec<String>,
}

#[derive(Debug, PartialEq, Eq)]
pub struct InitializeMultisig {
    pub version: InitializeMultisigVersion,
    pub signature_count_threshold: u32,
    pub accounts: InitializeMultisigAccounts,
}

#[derive(Debug, PartialEq, Eq)]
pub struct ApproveAccounts {
    pub source: String,
    pub delegate: String,
    pub signer: Signer,
    pub token_mint: Option<String>,
}

#[derive(Debug, PartialEq, Eq)]
pub struct Approve {
    pub instruction: AmountInstruction,
    pub accounts: ApproveAccounts,
}

#[derive(Debug, PartialEq, Eq)]
pub struct Revoke {
    pub source: String,
    pub signer: Signer,
}

#[derive(Debug, PartialEq, Eq)]
pub struct SetAuthorityInstruction {
    pub authority_type: AuthorityType,
    pub new_authority: Option<String>,
}

#[derive(Debug, PartialEq, Eq)]
pub struct SetAuthorityAccounts {
    pub account: String,
    pub current_authority: String,
}

#[derive(Debug, PartialEq, Eq)]
pub struct SetAuthority {
    pub instruction: SetAuthorityInstruction,
    pub accounts: SetAuthorityAccounts,
}

#[derive(Debug, PartialEq, Eq)]
pub struct MintToAccounts {
    pub mint: String,
    pub destination: String,
    pub mint_authority: Signer,
}

#[derive(Debug, PartialEq, Eq)]
pub struct MintTo {
    pub instruction: AmountInstruction,
    pub accounts: MintToAccounts,
}

#[derive(Debug, PartialEq, Eq)]
pub struct BurnAccounts {
    pub source: String,
    pub mint: String,
    pub signer: Signer,
}

#[derive(Debug, PartialEq, Eq)]
pub struct Burn {
    pub instruction: AmountInstruction,
    pub accounts: BurnAccounts,
}

#[derive(Debug, PartialEq, Eq)]
pub struct CloseAccount {
    pub account: String,
    pub destination: String,
    pub signer: Signer,
}

/// Accounts of a freeze or a thaw.
#[derive(Debug, PartialEq, Eq)]
pub struct FreezeAccounts {
    pub account: String,
    pub mint: String,
    pub mint_freeze_authority: Signer,
}

#[derive(Debug, PartialEq, Eq)]
pub struct SyncNative {
    pub native_token_account: String,
}

#[derive(Debug, PartialEq, Eq)]
pub struct InitializeImmutableOwner {
    pub account: String,
}

/// The operation an event records, one variant per modeled kind.
#[derive(Debug, PartialEq, Eq)]
pub enum Type {
    Transfer(Transfer),
    InitializeMint(InitializeMint),
    InitializeImmutableOwner(InitializeImmutableOwner),
    InitializeAccount(InitializeAccount),
    InitializeMultisig(InitializeMultisig),
    Approve(Approve),
    MintTo(MintTo),
    Revoke(Revoke),
    SetAuthority(SetAuthority),
    Burn(Burn),
    CloseAccount(CloseAccount),
    FreezeAccount(FreezeAccounts),
    ThawAccount(FreezeAccounts),
    SyncNative(SyncNative),
}

/// One decoded instruction of a block, with where it stands.
#[derive(Debug, PartialEq, Eq)]
pub struct Event {
    pub txn_id: String,
    pub block_height: u64,
    pub block_timestamp: i64,
    pub block_hash: String,
    pub instruction_index: u32,
    pub event_type: Type,
}

/// The events of one block, in ledger order.
#[derive(Debug, PartialEq, Eq)]
pub struct Events {
    pub data: Vec<Event>,
}

/// The name of the table that stores each kind of event.
pub open spec fn table_name(t: Type) -> Seq<char> {
    match t {
        Type::Transfer(_) => "transfer"@,
        Type::InitializeMint(_) => "initialize_mint"@,
        Type::InitializeImmutableOwner(_) => "initialize_immutable_owner"@,
        Type::InitializeAccount(_) => "initialize_account"@,
        Type::InitializeMultisig(_) => "initialize_multisig"@,
        Type::Approve(_) => "approve"@,
        Type::MintTo(_) => "mint_to"@,
        Type::Revoke(_) => "revoke"@,
        Type::SetAuthority(_) => "set_authority"@,
        Type::Burn(_) => "burn"@,
        Type::CloseAccount(_) => "close_account"@,
        Type::FreezeAccount(_) => "freeze_account"@,
        Type::ThawAccount(_) => "thaw_account"@,
        Type::SyncNative(_) => "sync_native"@,
    }
}

impl Type {
    /// The table that stores events of this kind.
    pub fn to_table(&self) -> (r: &'static str)
        ensures
            r@ == table_name(*self),
    {
        match self {
            Type::Transfer(_) => "transfer",
            Type::InitializeMint(_) => "initialize_mint",
            Type::InitializeImmutableOwner(_) => "initialize_immutable_owner",
            Type::InitializeAccount(_) => "initialize_account",
            Type::InitializeMultisig(_) => "initialize_multisig",
            Type::Approve(_) => "approve",
            Type::MintTo(_) => "mint_to",
            Type::Revoke(_) => "revoke",
            Type::SetAuthority(_) => "set_authority",
            Type::Burn(_) => "burn",
            Type::CloseAccount(_) => "close_account",
            Type::FreezeAccount(_) => "freeze_account",
            Type::ThawAccount(_) => "thaw_account",
            Type::SyncNative(_) => "sync_native",
        }
    }
}

} // verus!
