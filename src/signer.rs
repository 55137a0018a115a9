use crate::address::{address_string, base58_of};
use crate::model::{MultiSignature, Signer, SignerKind, SingleSignature};
use vstd::prelude::*;
use vstd::slice::slice_subrange;

verus! {

/// `texts` are the base58 forms of `keys`, one for one.
pub open spec fn names_of(texts: Seq<String>, keys: Seq<Vec<u8>>) -> bool {
    &&& texts.len() == keys.len()
    &&& forall|i: int| 0 <= i < texts.len() ==> #[trigger] texts[i]@ == base58_of(keys[i]@)
}

/// `s` is the signer of an instruction whose signer segment starts at `at` in
/// the address list `a`: the one address left, or else the multisig account
/// at `at` followed by its co-signers.
pub open spec fn signer_at(s: Signer, a: Seq<Vec<u8>>, at: int) -> bool {
    &&& 0 <= at < a.len()
    &&& match s.kind {
        SignerKind::Single(x) => a.len() == at + 1 && x.signer@ == base58_of(a[at]@),
        SignerKind::Multisig(m) => {
            &&& a.len() > at + 1
            &&& m.multisig_account@ == base58_of(a[at]@)
            &&& names_of(m.signers@, a.subrange(at + 1, a.len() as int))
        },
    }
}

/// The text of a signer as stored in a row: the single address, or the
/// co-signers joined with commas.
pub open spec fn signer_text(s: Signer) -> Seq<char> {
    match s.kind {
        SignerKind::Single(x) => x.signer@,
        SignerKind::Multisig(m) => joined(m.signers@, m.signers@.len() as int),
    }
}

/// The first `n` texts, separated by commas.
pub open spec fn joined(s: Seq<String>, n: int) -> Seq<char>
    decreases n,
{
    if n <= 0 {
        Seq::empty()
    } else if n == 1 {
        s[0]@
    } else {
        joined(s, n - 1) + seq![','] + s[n - 1]@
    }
}

fn names(keys: &[Vec<u8>]) -> (r: Vec<String>)
    ensures
        names_of(r@, keys@),
{
    let mut r: Vec<String> = Vec::new();
    let mut i: usize = 0;
    while i < keys.len()
        invariant
            i <= keys@.len(),
            names_of(r@, keys@.subrange(0, i as int)),
        decreases keys@.len() - i,
    {
        let t = address_string(&keys[i]);
        r.push(t);
        i = i + 1;
    }
    assert(keys@.subrange(0, keys@.len() as int) == keys@);
    r
}

pub fn single_signer(signer: &Vec<u8>) -> (r: SignerKind)
    ensures
        r matches SignerKind::Single(x) && x.signer@ == base58_of(signer@),
{
    SignerKind::Single(SingleSignature { signer: address_string(signer) })
}

pub fn multi_signers(multisig: &Vec<u8>, signers: &[Vec<u8>]) -> (r: SignerKind)
    ensures
        r matches SignerKind::Multisig(m) && m.multisig_account@ == base58_of(multisig@)
            && names_of(m.signers@, signers@),
{
    SignerKind::Multisig(
        MultiSignature { multisig_account: address_string(multisig), signers: names(signers) },
    )
}

/// Resolves the signer whose segment starts at `at`: `None` when no address is
/// left there.
pub fn new_signer_at(accounts: &Vec<Vec<u8>>, at: usize) -> (r: Option<Signer>)
    ensures
        r is Some <==> at < accounts@.len(),
        r matches Some(s) ==> signer_at(s, accounts@, at as int),
{
    let n = accounts.len();
    if at >= n {
        None
    } else if n - at == 1 {
        new_signer(single_signer(&accounts[at]))
    } else {
        let rest = slice_subrange(accounts.as_slice(), at + 1, n);
        new_signer(multi_signers(&accounts[at], rest))
    }
}

pub fn new_signer(kind: SignerKind) -> (r: Option<Signer>)
    ensures
        r == Some(Signer { kind }),
{
    Some(Signer { kind })
}

/// The signer as one text: the single address, or the co-signers joined with
/// commas.
pub fn signer_column(signer: &Signer) -> (r: String)
    ensures
        r@ == signer_text(*signer),
{
    match &signer.kind {
        SignerKind::Single(x) => x.signer.clone(),
        SignerKind::Multisig(m) => {
            let mut r = String::new();
            let mut i: usize = 0;
            while i < m.signers.len()
                invariant
                    i <= m.signers@.len(),
                    r@ == joined(m.signers@, i as int),
                decreases m.signers@.len() - i,
            {
                if i > 0 {
                    r.append(",");
                    proof {
                        reveal_strlit(",");
                    }
                }
                r.append(m.signers[i].as_str());
                i = i + 1;
            }
            r
        },
    }
}

} // verus!
