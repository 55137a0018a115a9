use crate::address::{address_string, base58_of};
use crate::layout::TokenInstruction;
use crate::model::{
    AmountInstruction, Approve, ApproveAccounts, Burn, BurnAccounts, CloseAccount, EventError,
    FreezeAccounts, InitializeAccount, InitializeAccountAccounts, InitializeAccountVersion,
    InitializeImmutableOwner, InitializeMint, InitializeMintAccounts, InitializeMintInstruction,
    InitializeMintVersion, InitializeMultisig, InitializeMultisigAccounts,
    InitializeMultisigVersion, MintTo, MintToAccounts, Revoke, SetAuthority,
    SetAuthorityAccounts, SetAuthorityInstruction, Signer, SignerKind, SyncNative, Transfer,
    TransferAccounts, Type,
};
use crate::signer::{names_of, new_signer_at, signer_at};
use vstd::prelude::*;
use vstd::slice::slice_subrange;

verus! {

/// Whether the instruction is modeled as an event.
pub open spec fn supported(op: TokenInstruction) -> bool {
    !(op is GetAccountDataSize || op is AmountToUiAmount || op is UiAmountToAmount)
}

/// How many addresses the instruction's role layout needs: its fixed roles,
/// and one more where a signer segment follows them.
pub open spec fn min_accounts(op: TokenInstruction) -> nat {
    match op {
        TokenInstruction::TransferChecked { .. } | TokenInstruction::ApproveChecked { .. } => 4,
        TokenInstruction::Transfer { .. }
        | TokenInstruction::Approve { .. }
        | TokenInstruction::InitializeAccount
        | TokenInstruction::MintTo { .. }
        | TokenInstruction::MintToChecked { .. }
        | TokenInstruction::Burn { .. }
        | TokenInstruction::BurnChecked { .. }
        | TokenInstruction::CloseAccount
        | TokenInstruction::FreezeAccount
        | TokenInstruction::ThawAccount => 3,
        TokenInstruction::Revoke
        | TokenInstruction::SetAuthority { .. }
        | TokenInstruction::InitializeAccount2 { .. }
        | TokenInstruction::InitializeAccount3 { .. } => 2,
        TokenInstruction::InitializeMint { .. }
        | TokenInstruction::InitializeMint2 { .. }
        | TokenInstruction::InitializeMultisig { .. }
        | TokenInstruction::InitializeMultisig2 { .. }
        | TokenInstruction::SyncNative
        | TokenInstruction::InitializeImmutableOwner => 1,
        _ => 0,
    }
}

/// The text of the address at `i` of the list.
pub open spec fn name_of(a: Seq<Vec<u8>>, i: int) -> Seq<char> {
    base58_of(a[i]@)
}

/// An optional text is the base58 form of an optional key.
pub open spec fn option_name_of(t: Option<String>, k: Option<Vec<u8>>) -> bool {
    match (t, k) {
        (None, None) => true,
        (Some(x), Some(v)) => x@ == base58_of(v@),
        _ => false,
    }
}

pub open spec fn amounts(amount: u64, decimals: Option<u8>) -> AmountInstruction {
    AmountInstruction {
        amount,
        decimals: match decimals {
            Some(d) => Some(d as u32),
            None => None,
        },
    }
}

pub open spec fn mint_as(
    x: InitializeMint,
    version: InitializeMintVersion,
    decimals: u8,
    mint_authority: Vec<u8>,
    freeze_authority: Option<Vec<u8>>,
    a: Seq<Vec<u8>>,
) -> bool {
    &&& x.version == version
    &&& x.instruction.mint_authority@ == base58_of(mint_authority@)
    &&& option_name_of(x.instruction.freeze_authority, freeze_authority)
    &&& x.instruction.decimals == decimals as u32
    &&& x.accounts.mint@ == name_of(a, 0)
}

pub open spec fn account_as(
    x: InitializeAccount,
    version: InitializeAccountVersion,
    owner: Seq<char>,
    a: Seq<Vec<u8>>,
) -> bool {
    &&& x.version == version
    &&& x.accounts.account@ == name_of(a, 0)
    &&& x.accounts.mint@ == name_of(a, 1)
    &&& x.accounts.owner@ == owner
}

pub open spec fn multisig_as(
    x: InitializeMultisig,
    version: InitializeMultisigVersion,
    m: u8,
    a: Seq<Vec<u8>>,
) -> bool {
    &&& x.version == version
    &&& x.signature_count_threshold == m as u32
    &&& x.accounts.account@ == name_of(a, 0)
    &&& names_of(x.accounts.signers@, a.subrange(1, a.len() as int))
}

pub open spec fn transfer_as(x: Transfer, amount: u64, decimals: Option<u8>, a: Seq<Vec<u8>>) -> bool {
    &&& x.instruction == amounts(amount, decimals)
    &&& x.accounts.source@ == name_of(a, 0)
    &&& match decimals {
        None => {
            &&& x.accounts.token_mint is None
            &&& x.accounts.destination@ == name_of(a, 1)
            &&& signer_at(x.accounts.signer, a, 2)
        },
        Some(_) => {
            &&& x.accounts.token_mint matches Some(mint) && mint@ == name_of(a, 1)
            &&& x.accounts.destination@ == name_of(a, 2)
            &&& signer_at(x.accounts.signer, a, 3)
        },
    }
}

pub open spec fn approve_as(x: Approve, amount: u64, decimals: Option<u8>, a: Seq<Vec<u8>>) -> bool {
    &&& x.instruction == amounts(amount, decimals)
    &&& x.accounts.source@ == name_of(a, 0)
    &&& match decimals {
        None => {
            &&& x.accounts.token_mint is None
            &&& x.accounts.delegate@ == name_of(a, 1)
            &&& signer_at(x.accounts.signer, a, 2)
        },
        Some(_) => {
            &&& x.accounts.token_mint matches Some(mint) && mint@ == name_of(a, 1)
            &&& x.accounts.delegate@ == name_of(a, 2)
            &&& signer_at(x.accounts.signer, a, 3)
        },
    }
}

pub open spec fn mint_to_as(x: MintTo, amount: u64, decimals: Option<u8>, a: Seq<Vec<u8>>) -> bool {
    &&& x.instruction == amounts(amount, decimals)
    &&& x.accounts.mint@ == name_of(a, 0)
    &&& x.accounts.destination@ == name_of(a, 1)
    &&& signer_at(x.accounts.mint_authority, a, 2)
}

pub open spec fn burn_as(x: Burn, amount: u64, decimals: Option<u8>, a: Seq<Vec<u8>>) -> bool {
    &&& x.instruction == amounts(amount, decimals)
    &&& x.accounts.source@ == name_of(a, 0)
    &&& x.accounts.mint@ == name_of(a, 1)
    &&& signer_at(x.accounts.signer, a, 2)
}

pub open spec fn freeze_as(x: FreezeAccounts, a: Seq<Vec<u8>>) -> bool {
    &&& x.account@ == name_of(a, 0)
    &&& x.mint@ == name_of(a, 1)
    &&& signer_at(x.mint_freeze_authority, a, 2)
}

/// `t` is the event kind that the supported instruction `op` with address
/// list `a` binds to, each role taken from its fixed position.
pub open spec fn classified_as(op: TokenInstruction, a: Seq<Vec<u8>>, t: Type) -> bool {
    match op {
        TokenInstruction::Transfer { amount } => t matches Type::Transfer(x) && transfer_as(x, amount, None, a),
        TokenInstruction::TransferChecked { amount, decimals } => t matches Type::Transfer(x)
            && transfer_as(x, amount, Some(decimals), a),
        TokenInstruction::InitializeMint { decimals, mint_authority, freeze_authority } => t matches Type::InitializeMint(x)
            && mint_as(x, InitializeMintVersion::V1, decimals, mint_authority, freeze_authority, a),
        TokenInstruction::InitializeMint2 { decimals, mint_authority, freeze_authority } => t matches Type::InitializeMint(x)
            && mint_as(x, InitializeMintVersion::V2, decimals, mint_authority, freeze_authority, a),
        TokenInstruction::InitializeAccount => t matches Type::InitializeAccount(x)
            && account_as(x, InitializeAccountVersion::V1, name_of(a, 2), a),
        TokenInstruction::InitializeAccount2 { owner } => t matches Type::InitializeAccount(x)
            && account_as(x, InitializeAccountVersion::V2, base58_of(owner@), a),
        TokenInstruction::InitializeAccount3 { owner } => t matches Type::InitializeAccount(x)
            && account_as(x, InitializeAccountVersion::V3, base58_of(owner@), a),
        TokenInstruction::InitializeMultisig { m } => t matches Type::InitializeMultisig(x)
            && multisig_as(x, InitializeMultisigVersion::V1, m, a),
        TokenInstruction::InitializeMultisig2 { m } => t matches Type::InitializeMultisig(x)
            && multisig_as(x, InitializeMultisigVersion::V2, m, a),
        TokenInstruction::Approve { amount } => t matches Type::Approve(x) && approve_as(x, amount, None, a),
        TokenInstruction::ApproveChecked { amount, decimals } => t matches Type::Approve(x)
            && approve_as(x, amount, Some(decimals), a),
        TokenInstruction::Revoke => t matches Type::Revoke(x) && x.source@ == name_of(a, 0)
            && signer_at(x.signer, a, 1),
        TokenInstruction::SetAuthority { authority_type, new_authority } => t matches Type::SetAuthority(x)
            && x.instruction.authority_type == authority_type
            && option_name_of(x.instruction.new_authority, new_authority)
            && x.accounts.account@ == name_of(a, 0)
            && x.accounts.current_authority@ == name_of(a, 1),
        TokenInstruction::MintTo { amount } => t matches Type::MintTo(x) && mint_to_as(x, amount, None, a),
        TokenInstruction::MintToChecked { amount, decimals } => t matches Type::MintTo(x)
            && mint_to_as(x, amount, Some(decimals), a),
        TokenInstruction::Burn { amount } => t matches Type::Burn(x) && burn_as(x, amount, None, a),
        TokenInstruction::BurnChecked { amount, decimals } => t matches Type::Burn(x)
            && burn_as(x, amount, Some(decimals), a),
        TokenInstruction::CloseAccount => t matches Type::CloseAccount(x) && x.account@ == name_of(a, 0)
            && x.destination@ == name_of(a, 1) && signer_at(x.signer, a, 2),
        TokenInstruction::FreezeAccount => t matches Type::FreezeAccount(x) && freeze_as(x, a),
        TokenInstruction::ThawAccount => t matches Type::ThawAccount(x) && freeze_as(x, a),
        TokenInstruction::SyncNative => t matches Type::SyncNative(x) && x.native_token_account@ == name_of(a, 0),
        TokenInstruction::InitializeImmutableOwner => t matches Type::InitializeImmutableOwner(x)
            && x.account@ == name_of(a, 0),
        _ => false,
    }
}

fn name_at(accounts: &Vec<Vec<u8>>, i: usize) -> (r: String)
    requires
        i < accounts@.len(),
    ensures
        r@ == name_of(accounts@, i as int),
{
    address_string(&accounts[i])
}

fn option_name(k: &Option<Vec<u8>>) -> (r: Option<String>)
    ensures
        option_name_of(r, *k),
{
    match k {
        None => None,
        Some(v) => Some(address_string(v)),
    }
}

fn signer_from(accounts: &Vec<Vec<u8>>, at: usize) -> (r: Signer)
    requires
        at < accounts@.len(),
    ensures
        signer_at(r, accounts@, at as int),
{
    new_signer_at(accounts, at).unwrap()
}

fn decimals_u32(decimals: Option<u8>) -> (r: Option<u32>)
    ensures
        decimals matches Some(d) ==> r == Some(d as u32),
        decimals is None ==> r is None,
{
    match decimals {
        Some(d) => Some(d as u32),
        None => None,
    }
}

fn multisig_members(accounts: &Vec<Vec<u8>>) -> (r: Vec<String>)
    requires
        1 <= accounts@.len(),
    ensures
        names_of(r@, accounts@.subrange(1, accounts@.len() as int)),
{
    let n = accounts.len();
    let rest = slice_subrange(accounts.as_slice(), 1, n);
    let mut r: Vec<String> = Vec::new();
    let mut i: usize = 0;
    while i < rest.len()
        invariant
            i <= rest@.len(),
            rest@ == accounts@.subrange(1, accounts@.len() as int),
            names_of(r@, rest@.subrange(0, i as int)),
        decreases rest@.len() - i,
    {
        r.push(address_string(&rest[i]));
        i = i + 1;
    }
    assert(rest@.subrange(0, rest@.len() as int) == rest@);
    r
}

impl Type {
    /// Binds a decoded instruction and its address list to an event kind.
    /// Unsupported kinds fail with `UnsupportedOperation`; a list shorter than
    /// the kind's role layout fails with `MissingAccount`.
    pub fn try_from(op: &TokenInstruction, accounts: &Vec<Vec<u8>>) -> (r: Result<Type, EventError>)
        ensures
            !supported(*op) ==> r == Err::<Type, EventError>(EventError::UnsupportedOperation),
            supported(*op) && accounts@.len() < min_accounts(*op) ==> r == Err::<Type, EventError>(
                EventError::MissingAccount,
            ),
            supported(*op) && accounts@.len() >= min_accounts(*op) ==> (r matches Ok(t)
                && classified_as(*op, accounts@, t)),
    {
        let n = accounts.len();
        match op {
            TokenInstruction::GetAccountDataSize
            | TokenInstruction::AmountToUiAmount { .. }
            | TokenInstruction::UiAmountToAmount => {
                return Err(EventError::UnsupportedOperation);
            },
            _ => {},
        }
        let need: usize = match op {
            TokenInstruction::TransferChecked { .. } | TokenInstruction::ApproveChecked { .. } => 4,
            TokenInstruction::Transfer { .. }
            | TokenInstruction::Approve { .. }
            | TokenInstruction::InitializeAccount
            | TokenInstruction::MintTo { .. }
            | TokenInstruction::MintToChecked { .. }
            | TokenInstruction::Burn { .. }
            | TokenInstruction::BurnChecked { .. }
            | TokenInstruction::CloseAccount
            | TokenInstruction::FreezeAccount
            | TokenInstruction::ThawAccount => 3,
            TokenInstruction::Revoke
            | TokenInstruction::SetAuthority { .. }
            | TokenInstruction::InitializeAccount2 { .. }
            | TokenInstruction::InitializeAccount3 { .. } => 2,
            _ => 1,
        };
        if n < need {
            return Err(EventError::MissingAccount);
        }
        let t = match op {
            TokenInstruction::Transfer { amount } => Type::Transfer(Transfer {
                instruction: AmountInstruction { amount: *amount, decimals: None },
                accounts: TransferAccounts {
                    source: name_at(accounts, 0),
                    destination: name_at(accounts, 1),
                    signer: signer_from(accounts, 2),
                    token_mint: None,
                },
            }),
            TokenInstruction::TransferChecked { amount, decimals } => Type::Transfer(Transfer {
                instruction: AmountInstruction { amount: *amount, decimals: decimals_u32(Some(*decimals)) },
                accounts: TransferAccounts {
                    source: name_at(accounts, 0),
                    token_mint: Some(name_at(accounts, 1)),
                    destination: name_at(accounts, 2),
                    signer: signer_from(accounts, 3),
                },
            }),
            TokenInstruction::InitializeMint { decimals, mint_authority, freeze_authority }
            | TokenInstruction::InitializeMint2 { decimals, mint_authority, freeze_authority } => {
                let version = if matches!(op, TokenInstruction::InitializeMint { .. }) {
                    InitializeMintVersion::V1
                } else {
                    InitializeMintVersion::V2
                };
                Type::InitializeMint(InitializeMint {
                    version,
                    instruction: InitializeMintInstruction {
                        mint_authority: address_string(mint_authority),
                        freeze_authority: option_name(freeze_authority),
                        decimals: *decimals as u32,
                    },
                    accounts: InitializeMintAccounts { mint: name_at(accounts, 0) },
                })
            },
            TokenInstruction::InitializeAccount => Type::InitializeAccount(InitializeAccount {
                version: InitializeAccountVersion::V1,
                accounts: InitializeAccountAccounts {
                    account: name_at(accounts, 0),
                    mint: name_at(accounts, 1),
                    owner: name_at(accounts, 2),
                },
            }),
            TokenInstruction::InitializeAccount2 { owner }
            | TokenInstruction::InitializeAccount3 { owner } => {
                let version = if matches!(op, TokenInstruction::InitializeAccount2 { .. }) {
                    InitializeAccountVersion::V2
                } else {
                    InitializeAccountVersion::V3
                };
                Type::InitializeAccount(InitializeAccount {
                    version,
                    accounts: InitializeAccountAccounts {
                        account: name_at(accounts, 0),
                        mint: name_at(accounts, 1),
                        owner: address_string(owner),
                    },
                })
            },
            TokenInstruction::InitializeMultisig { m }
            | TokenInstruction::InitializeMultisig2 { m } => {
                let version = if matches!(op, TokenInstruction::InitializeMultisig { .. }) {
                    InitializeMultisigVersion::V1
                } else {
                    InitializeMultisigVersion::V2
                };
                Type::InitializeMultisig(InitializeMultisig {
                    version,
                    signature_count_threshold: *m as u32,
                    accounts: InitializeMultisigAccounts {
                        account: name_at(accounts, 0),
                        signers: multisig_members(accounts),
                    },
                })
            },
            TokenInstruction::Approve { amount } => Type::Approve(Approve {
                instruction: AmountInstruction { amount: *amount, decimals: None },
                accounts: ApproveAccounts {
                    source: name_at(accounts, 0),
                    delegate: name_at(accounts, 1),
                    signer: signer_from(accounts, 2),
                    token_mint: None,
                },
            }),
            TokenInstruction::ApproveChecked { amount, decimals } => Type::Approve(Approve {
                instruction: AmountInstruction { amount: *amount, decimals: decimals_u32(Some(*decimals)) },
                accounts: ApproveAccounts {
                    source: name_at(accounts, 0),
                    token_mint: Some(name_at(accounts, 1)),
                    delegate: name_at(accounts, 2),
                    signer: signer_from(accounts, 3),
                },
            }),
            TokenInstruction::Revoke => Type::Revoke(
                Revoke { source: name_at(accounts, 0), signer: signer_from(accounts, 1) },
            ),
            TokenInstruction::SetAuthority { authority_type, new_authority } => Type::SetAuthority(SetAuthority {
                instruction: SetAuthorityInstruction {
                    authority_type: *authority_type,
                    new_authority: option_name(new_authority),
                },
                accounts: SetAuthorityAccounts {
                    account: name_at(accounts, 0),
                    current_authority: name_at(accounts, 1),
                },
            }),
            TokenInstruction::MintTo { amount } | TokenInstruction::MintToChecked { amount, .. } => {
                let decimals = match op {
                    TokenInstruction::MintToChecked { decimals, .. } => Some(*decimals),
                    _ => None,
                };
                Type::MintTo(MintTo {
                    instruction: AmountInstruction { amount: *amount, decimals: decimals_u32(decimals) },
                    accounts: MintToAccounts {
                        mint: name_at(accounts, 0),
                        destination: name_at(accounts, 1),
                        mint_authority: signer_from(accounts, 2),
                    },
                })
            },
            TokenInstruction::Burn { amount } | TokenInstruction::BurnChecked { amount, .. } => {
                let decimals = match op {
                    TokenInstruction::BurnChecked { decimals, .. } => Some(*decimals),
                    _ => None,
                };
                Type::Burn(Burn {
                    instruction: AmountInstruction { amount: *amount, decimals: decimals_u32(decimals) },
                    accounts: BurnAccounts {
                        source: name_at(accounts, 0),
                        mint: name_at(accounts, 1),
                        signer: signer_from(accounts, 2),
                    },
                })
            },
            TokenInstruction::CloseAccount => Type::CloseAccount(CloseAccount {
                account: name_at(accounts, 0),
                destination: name_at(accounts, 1),
                signer: signer_from(accounts, 2),
            }),
            TokenInstruction::FreezeAccount => Type::FreezeAccount(FreezeAccounts {
                account: name_at(accounts, 0),
                mint: name_at(accounts, 1),
                mint_freeze_authority: signer_from(accounts, 2),
            }),
            TokenInstruction::ThawAccount => Type::ThawAccount(FreezeAccounts {
                account: name_at(accounts, 0),
                mint: name_at(accounts, 1),
                mint_freeze_authority: signer_from(accounts, 2),
            }),
            TokenInstruction::SyncNative => Type::SyncNative(
                SyncNative { native_token_account: name_at(accounts, 0) },
            ),
            _ => Type::InitializeImmutableOwner(
                InitializeImmutableOwner { account: name_at(accounts, 0) },
            ),
        };
        Ok(t)
    }
}

/// A plain transfer with exactly three addresses has a single signer; with
/// more, a multisig whose co-signers are the addresses after the third.
pub proof fn lemma_transfer_signer_by_account_count(amount: u64, a: Seq<Vec<u8>>, t: Type)
    requires
        a.len() >= 3,
        classified_as(TokenInstruction::Transfer { amount }, a, t),
    ensures
        t matches Type::Transfer(x) && {
            let kind = x.accounts.signer.kind;
            &&& a.len() == 3 ==> kind is Single
            &&& a.len() > 3 ==> (kind matches SignerKind::Multisig(m) && m.signers@.len() == a.len() - 3)
        },
{
}

} // verus!
