//! Decoding of fungible-token program instructions into typed events, binding of
//! account lists to roles, and selection of the events that concern one token mint.

mod address;
mod block;
mod classify;
mod filter;
mod layout;
mod model;
mod signer;

pub use address::{base58_of, is_token_program_id};
pub use block::{
    amount_params, block_positions, decoded, encode_amount, encode_amount_decimals, event_at,
    event_of, instruction_included, lemma_amount_decimals_round_trip, lemma_amount_round_trip,
    lemma_events_in_ledger_order, lemma_reading_fixes_kind, lemma_short_account_list_yields_nothing,
    lemma_unsupported_yields_nothing, map_block, precedes, tx_positions, Clock, Instruction,
    Transaction, TransactionMeta,
};
pub use classify::{
    classified_as, lemma_transfer_signer_by_account_count, min_accounts, name_of, option_name_of,
    supported,
};
pub use filter::{
    balances_mention, for_contract, lemma_checked_transfer_ignores_balances,
    lemma_for_contract_of_classified, lemma_unattributed_kinds_never_match, op_included,
    TokenBalance,
};
pub use layout::{
    amount_at, authority_code, decode, decoded_as, op_tag, option_key_is, option_key_ok,
    well_formed, AuthorityType, TokenInstruction,
};
pub use model::{
    table_name, AmountInstruction, Approve, ApproveAccounts, Burn, BurnAccounts, CloseAccount,
    Event, EventError, Events, FreezeAccounts, InitializeAccount, InitializeAccountAccounts,
    InitializeAccountVersion, InitializeImmutableOwner, InitializeMint, InitializeMintAccounts,
    InitializeMintInstruction, InitializeMintVersion, InitializeMultisig,
    InitializeMultisigAccounts, InitializeMultisigVersion, MintTo, MintToAccounts, MultiSignature,
    Revoke, SetAuthority, SetAuthorityAccounts, SetAuthorityInstruction, Signer, SignerKind,
    SingleSignature, SyncNative, Transfer, TransferAccounts, Type,
};
pub use signer::{
    joined, multi_signers, names_of, new_signer, new_signer_at, signer_at, signer_column,
    signer_text, single_signer,
};
