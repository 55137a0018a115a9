use vstd::bytes::{spec_u64_from_le_bytes, spec_u64_to_le_bytes, u64_from_le_bytes};
use vstd::prelude::*;
use vstd::slice::slice_subrange;
use vstd::utf8::valid_utf8;

verus! {

/// Which authority a `SetAuthority` instruction replaces.
#[derive(Clone, Copy, Debug, PartialEq, Eq, Structural)]
pub enum AuthorityType {
    MintTokens,
    FreezeAccount,
    AccountOwner,
    CloseAccount,
}

/// An instruction of the token program, decoded from its payload bytes.
/// Keys are the 32 raw bytes of an address.
#[derive(Debug, PartialEq, Eq)]
pub enum TokenInstruction {
    InitializeMint { decimals: u8, mint_authority: Vec<u8>, freeze_authority: Option<Vec<u8>> },
    InitializeAccount,
    InitializeMultisig { m: u8 },
    Transfer { amount: u64 },
    Approve { amount: u64 },
    Revoke,
    SetAuthority { authority_type: AuthorityType, new_authority: Option<Vec<u8>> },
    MintTo { amount: u64 },
    Burn { amount: u64 },
    CloseAccount,
    FreezeAccount,
    ThawAccount,
    TransferChecked { amount: u64, decimals: u8 },
    ApproveChecked { amount: u64, decimals: u8 },
    MintToChecked { amount: u64, decimals: u8 },
    BurnChecked { amount: u64, decimals: u8 },
    InitializeAccount2 { owner: Vec<u8> },
    SyncNative,
    InitializeAccount3 { owner: Vec<u8> },
    InitializeMultisig2 { m: u8 },
    InitializeMint2 { decimals: u8, mint_authority: Vec<u8>, freeze_authority: Option<Vec<u8>> },
    GetAccountDataSize,
    InitializeImmutableOwner,
    AmountToUiAmount { amount: u64 },
    UiAmountToAmount,
}

/// The leading byte that selects each instruction.
pub open spec fn op_tag(op: TokenInstruction) -> u8 {
    match op {
        TokenInstruction::InitializeMint { .. } => 0,
        TokenInstruction::InitializeAccount => 1,
        TokenInstruction::InitializeMultisig { .. } => 2,
        TokenInstruction::Transfer { .. } => 3,
        TokenInstruction::Approve { .. } => 4,
        TokenInstruction::Revoke => 5,
        TokenInstruction::SetAuthority { .. } => 6,
        TokenInstruction::MintTo { .. } => 7,
        TokenInstruction::Burn { .. } => 8,
        TokenInstruction::CloseAccount => 9,
        TokenInstruction::FreezeAccount => 10,
        TokenInstruction::ThawAccount => 11,
        TokenInstruction::TransferChecked { .. } => 12,
        TokenInstruction::ApproveChecked { .. } => 13,
        TokenInstruction::MintToChecked { .. } => 14,
        TokenInstruction::BurnChecked { .. } => 15,
        TokenInstruction::InitializeAccount2 { .. } => 16,
        TokenInstruction::SyncNative => 17,
        TokenInstruction::InitializeAccount3 { .. } => 18,
        TokenInstruction::InitializeMultisig2 { .. } => 19,
        TokenInstruction::InitializeMint2 { .. } => 20,
        TokenInstruction::GetAccountDataSize => 21,
        TokenInstruction::InitializeImmutableOwner => 22,
        TokenInstruction::AmountToUiAmount { .. } => 23,
        TokenInstruction::UiAmountToAmount => 24,
    }
}

pub open spec fn authority_code(a: AuthorityType) -> u8 {
    match a {
        AuthorityType::MintTokens => 0,
        AuthorityType::FreezeAccount => 1,
        AuthorityType::AccountOwner => 2,
        AuthorityType::CloseAccount => 3,
    }
}

/// The little-endian `u64` stored in the eight bytes at `i`.
pub open spec fn amount_at(d: Seq<u8>, i: int) -> u64 {
    spec_u64_from_le_bytes(d.subrange(i, i + 8))
}

/// An optional key at `i` is well formed: a 0 alone, or a 1 followed by 32 bytes.
pub open spec fn option_key_ok(d: Seq<u8>, i: int) -> bool {
    0 <= i < d.len() && (d[i] == 0 || (d[i] == 1 && i + 33 <= d.len()))
}

/// The optional key at `i` reads as `k`.
pub open spec fn option_key_is(d: Seq<u8>, i: int, k: Option<Vec<u8>>) -> bool {
    match k {
        None => d[i] == 0,
        Some(v) => d[i] == 1 && v@ == d.subrange(i + 1, i + 33),
    }
}

/// The payload holds a complete instruction: a known leading byte and enough
/// bytes after it for that instruction's fields. Bytes past them are ignored.
pub open spec fn well_formed(d: Seq<u8>) -> bool {
    &&& d.len() >= 1
    &&& {
        let t = d[0];
        let n = d.len();
        if t == 0 || t == 20 {
            n >= 34 && option_key_ok(d, 34)
        } else if t == 1 || t == 5 || (9 <= t <= 11) || t == 17 || t == 21 || t == 22 {
            true
        } else if t == 2 || t == 19 {
            n >= 2
        } else if t == 3 || t == 4 || t == 7 || t == 8 || t == 23 {
            n >= 9
        } else if t == 6 {
            n >= 2 && d[1] < 4 && option_key_ok(d, 2)
        } else if 12 <= t <= 15 {
            n >= 10
        } else if t == 16 || t == 18 {
            n >= 33
        } else if t == 24 {
            valid_utf8(d.drop_first())
        } else {
            false
        }
    }
}

/// The well-formed payload `d` reads as `op`.
pub open spec fn decoded_as(d: Seq<u8>, op: TokenInstruction) -> bool {
    &&& d.len() >= 1
    &&& d[0] == op_tag(op)
    &&& match op {
        TokenInstruction::InitializeMint { decimals, mint_authority, freeze_authority }
        | TokenInstruction::InitializeMint2 { decimals, mint_authority, freeze_authority } => {
            &&& decimals == d[1]
            &&& mint_authority@ == d.subrange(2, 34)
            &&& option_key_is(d, 34, freeze_authority)
        },
        TokenInstruction::InitializeMultisig { m }
        | TokenInstruction::InitializeMultisig2 { m } => m == d[1],
        TokenInstruction::Transfer { amount }
        | TokenInstruction::Approve { amount }
        | TokenInstruction::MintTo { amount }
        | TokenInstruction::Burn { amount }
        | TokenInstruction::AmountToUiAmount { amount } => amount == amount_at(d, 1),
        TokenInstruction::SetAuthority { authority_type, new_authority } => {
            &&& authority_code(authority_type) == d[1]
            &&& option_key_is(d, 2, new_authority)
        },
        TokenInstruction::TransferChecked { amount, decimals }
        | TokenInstruction::ApproveChecked { amount, decimals }
        | TokenInstruction::MintToChecked { amount, decimals }
        | TokenInstruction::BurnChecked { amount, decimals } => {
            amount == amount_at(d, 1) && decimals == d[9]
        },
        TokenInstruction::InitializeAccount2 { owner }
        | TokenInstruction::InitializeAccount3 { owner } => owner@ == d.subrange(1, 33),
        _ => true,
    }
}

/// Relies on `std::str::from_utf8`, which succeeds exactly on valid UTF-8.
#[verifier::external_body]
pub(crate) fn is_utf8(bytes: &[u8]) -> (r: bool)
    ensures
        r == valid_utf8(bytes@),
{
    std::str::from_utf8(bytes).is_ok()
}

fn key_at(d: &Vec<u8>, i: usize) -> (r: Vec<u8>)
    requires
        i + 32 <= d@.len(),
    ensures
        r@ == d@.subrange(i as int, i + 32),
{
    let _n = d.len();
    let end = i + 32;
    let mut r: Vec<u8> = Vec::new();
    let mut j: usize = i;
    while j < end
        invariant
            end == i + 32,
            i <= j <= end,
            end <= d@.len(),
            r@ == d@.subrange(i as int, j as int),
        decreases end - j,
    {
        r.push(d[j]);
        j = j + 1;
    }
    r
}

fn option_key_at(d: &Vec<u8>, i: usize) -> (r: Option<Option<Vec<u8>>>)
    ensures
        r is Some <==> option_key_ok(d@, i as int),
        r matches Some(k) ==> option_key_is(d@, i as int, k),
{
    if i >= d.len() {
        None
    } else if d[i] == 0 {
        Some(None)
    } else if d[i] == 1 && d.len() - i >= 33 {
        Some(Some(key_at(d, i + 1)))
    } else {
        None
    }
}

fn amount_at_exec(d: &Vec<u8>, i: usize) -> (r: u64)
    requires
        i + 8 <= d@.len(),
    ensures
        r == amount_at(d@, i as int),
{
    let _n = d.len();
    let s = slice_subrange(d.as_slice(), i, i + 8);
    u64_from_le_bytes(s)
}

/// Decodes an instruction payload of the token program. Fails exactly when the
/// payload is not well formed; on success the instruction is the one the bytes hold.
pub fn decode(data: &Vec<u8>) -> (r: Option<TokenInstruction>)
    ensures
        r is Some <==> well_formed(data@),
        r matches Some(op) ==> decoded_as(data@, op),
{
    let n = data.len();
    if n == 0 {
        return None;
    }
    let t = data[0];
    if t == 0 || t == 20 {
        if n < 34 {
            return None;
        }
        let decimals = data[1];
        let mint_authority = key_at(data, 2);
        match option_key_at(data, 34) {
            None => None,
            Some(freeze_authority) => if t == 0 {
                Some(TokenInstruction::InitializeMint { decimals, mint_authority, freeze_authority })
            } else {
                Some(TokenInstruction::InitializeMint2 { decimals, mint_authority, freeze_authority })
            },
        }
    } else if t == 1 {
        Some(TokenInstruction::InitializeAccount)
    } else if t == 2 || t == 19 {
        if n < 2 {
            None
        } else if t == 2 {
            Some(TokenInstruction::InitializeMultisig { m: data[1] })
        } else {
            Some(TokenInstruction::InitializeMultisig2 { m: data[1] })
        }
    } else if t == 3 || t == 4 || t == 7 || t == 8 || t == 23 {
        if n < 9 {
            return None;
        }
        let amount = amount_at_exec(data, 1);
        if t == 3 {
            Some(TokenInstruction::Transfer { amount })
        } else if t == 4 {
            Some(TokenInstruction::Approve { amount })
        } else if t == 7 {
            Some(TokenInstruction::MintTo { amount })
        } else if t == 8 {
            Some(TokenInstruction::Burn { amount })
        } else {
            Some(TokenInstruction::AmountToUiAmount { amount })
        }
    } else if t == 5 {
        Some(TokenInstruction::Revoke)
    } else if t == 6 {
        if n < 2 || data[1] >= 4 {
            return None;
        }
        let authority_type = if data[1] == 0 {
            AuthorityType::MintTokens
        } else if data[1] == 1 {
            AuthorityType::FreezeAccount
        } else if data[1] == 2 {
            AuthorityType::AccountOwner
        } else {
            AuthorityType::CloseAccount
        };
        match option_key_at(data, 2) {
            None => None,
            Some(new_authority) => Some(TokenInstruction::SetAuthority { authority_type, new_authority }),
        }
    } else if t == 9 {
        Some(TokenInstruction::CloseAccount)
    } else if t == 10 {
        Some(TokenInstruction::FreezeAccount)
    } else if t == 11 {
        Some(TokenInstruction::ThawAccount)
    } else if 12 <= t && t <= 15 {
        if n < 10 {
            return None;
        }
        let amount = amount_at_exec(data, 1);
        let decimals = data[9];
        if t == 12 {
            Some(TokenInstruction::TransferChecked { amount, decimals })
        } else if t == 13 {
            Some(TokenInstruction::ApproveChecked { amount, decimals })
        } else if t == 14 {
            Some(TokenInstruction::MintToChecked { amount, decimals })
        } else {
            Some(TokenInstruction::BurnChecked { amount, decimals })
        }
    } else if t == 16 || t == 18 {
        if n < 33 {
            return None;
        }
        let owner = key_at(data, 1);
        if t == 16 {
            Some(TokenInstruction::InitializeAccount2 { owner })
        } else {
            Some(TokenInstruction::InitializeAccount3 { owner })
        }
    } else if t == 17 {
        Some(TokenInstruction::SyncNative)
    } else if t == 21 {
        Some(TokenInstruction::GetAccountDataSize)
    } else if t == 22 {
        Some(TokenInstruction::InitializeImmutableOwner)
    } else if t == 24 {
        let rest = slice_subrange(data.as_slice(), 1, n);
        if is_utf8(rest) {
            Some(TokenInstruction::UiAmountToAmount)
        } else {
            None
        }
    } else {
        None
    }
}

} // verus!
