use vstd::prelude::*;

use anchor_lang::prelude::Pubkey;
use vstd::bytes::{spec_u64_to_le_bytes, u64_to_le_bytes};

use crate::account::{lemma_same_bytes, AccountId};

verus! {

/// A custody or record account of the program, named by what it belongs to.
/// Its address is derived from its seed tuple and the program id, so only the
/// program can authorize movements out of it.
#[derive(Clone, Copy, Debug)]
pub enum Custody {
    /// The fee registry.
    Config,
    /// The escrow of order `order_id` placed by `buyer`.
    Escrow { buyer: AccountId, order_id: u64 },
    /// The auction of `merchant`.
    Auction { merchant: AccountId },
    /// The raffle of `merchant`.
    Raffle { merchant: AccountId },
    /// Ticket number `index` of the raffle at `raffle`.
    Ticket { raffle: AccountId, index: u64 },
    /// The swap vault, holding the native reserve.
    SwapVault,
    /// The swap vault's token account, holding the token reserve.
    SwapTokenVault,
}

pub open spec fn tag_config() -> Seq<u8> {
    seq![99u8, 111u8, 110u8, 102u8, 105u8, 103u8]
}

pub open spec fn tag_escrow() -> Seq<u8> {
    seq![115u8, 111u8, 108u8, 45u8, 101u8, 115u8, 99u8, 114u8, 111u8, 119u8]
}

pub open spec fn tag_auction() -> Seq<u8> {
    seq![97u8, 117u8, 99u8, 116u8, 105u8, 111u8, 110u8]
}

pub open spec fn tag_raffle() -> Seq<u8> {
    seq![114u8, 97u8, 102u8, 102u8, 108u8, 101u8]
}

pub open spec fn tag_ticket() -> Seq<u8> {
    seq![116u8, 105u8, 99u8, 107u8, 101u8, 116u8]
}

pub open spec fn tag_swap_vault() -> Seq<u8> {
    seq![109u8, 107u8, 110u8, 95u8, 118u8, 97u8, 117u8, 108u8, 116u8]
}

pub open spec fn tag_swap_token_vault() -> Seq<u8> {
    tag_swap_vault() + seq![95u8, 116u8, 111u8, 107u8, 101u8, 110u8]
}

/// The seed tuple of an account: its ASCII tag (`config`, `sol-escrow`,
/// `auction`, `raffle`, `ticket`, `mkn_vault`, `mkn_vault_token`), then the
/// owning party's identity, then the sequence number in little-endian order.
pub open spec fn seeds_of(c: Custody) -> Seq<Seq<u8>> {
    match c {
        Custody::Config => seq![tag_config()],
        Custody::Escrow { buyer, order_id } => seq![
            tag_escrow(),
            buyer.bytes@,
            spec_u64_to_le_bytes(order_id),
        ],
        Custody::Auction { merchant } => seq![tag_auction(), merchant.bytes@],
        Custody::Raffle { merchant } => seq![tag_raffle(), merchant.bytes@],
        Custody::Ticket { raffle, index } => seq![
            tag_ticket(),
            raffle.bytes@,
            spec_u64_to_le_bytes(index),
        ],
        Custody::SwapVault => seq![tag_swap_vault()],
        Custody::SwapTokenVault => seq![tag_swap_token_vault()],
    }
}

/// The seeds that authorize a movement out of an account: its seed tuple
/// followed by its one-byte derivation nonce.
pub open spec fn signer_seeds_of(c: Custody, bump: u8) -> Seq<Seq<u8>> {
    seeds_of(c).push(seq![bump])
}

/// The address that `seeds` give under `program`, or none where the seeds are
/// refused or the hash lies on the curve.
pub uninterp spec fn program_address(seeds: Seq<Seq<u8>>, program: Seq<u8>) -> Option<Seq<u8>>;

/// The first address and nonce, counting the nonce down from 255, that `seeds`
/// give under `program`, if any.
pub uninterp spec fn found_program_address(seeds: Seq<Seq<u8>>, program: Seq<u8>) -> Option<
    (Seq<u8>, u8),
>;

/// Relies on `Pubkey::create_program_address`: a hash of the seeds and the
/// program id, refused for more than 16 seeds or a seed over 32 bytes, and
/// refused when the hash lies on the curve.
#[verifier::external_body]
fn create_program_address(seeds: &Vec<Vec<u8>>, program_id: &AccountId) -> (r: Option<AccountId>)
    ensures
        r is Some <==> program_address(seeds.deep_view(), program_id.bytes@) is Some,
        r matches Some(a) ==> program_address(seeds.deep_view(), program_id.bytes@) == Some(
            a.bytes@,
        ),
        seeds@.len() > 16 ==> r is None,
        (exists|i: int| 0 <= i < seeds@.len() && seeds@[i]@.len() > 32) ==> r is None,
{
    let parts: Vec<&[u8]> = seeds.iter().map(|s| s.as_slice()).collect();
    match Pubkey::create_program_address(&parts, &Pubkey::new_from_array(program_id.bytes)) {
        Ok(key) => Some(AccountId { bytes: key.to_bytes() }),
        Err(_) => None,
    }
}

/// Relies on `Pubkey::try_find_program_address`: it appends each nonce from
/// 255 down as a last one-byte seed and returns the first address that
/// `create_program_address` accepts, with that nonce.
#[verifier::external_body]
fn try_find_program_address(seeds: &Vec<Vec<u8>>, program_id: &AccountId) -> (r: Option<
    (AccountId, u8),
>)
    ensures
        r is Some <==> found_program_address(seeds.deep_view(), program_id.bytes@) is Some,
        r matches Some((a, bump)) ==> found_program_address(seeds.deep_view(), program_id.bytes@)
            == Some((a.bytes@, bump)),
        r matches Some((a, bump)) ==> program_address(
            seeds.deep_view().push(seq![bump]),
            program_id.bytes@,
        ) == Some(a.bytes@),
{
    let parts: Vec<&[u8]> = seeds.iter().map(|s| s.as_slice()).collect();
    Pubkey::try_find_program_address(&parts, &Pubkey::new_from_array(program_id.bytes)).map(
        |(key, bump)| (AccountId { bytes: key.to_bytes() }, bump),
    )
}

fn tag(c: &Custody) -> (r: Vec<u8>)
    ensures
        r@ == seeds_of(*c)[0],
{
    let r: Vec<u8> = match c {
        Custody::Config => vec![99u8, 111u8, 110u8, 102u8, 105u8, 103u8],
        Custody::Escrow { .. } => vec![
            115u8,
            111u8,
            108u8,
            45u8,
            101u8,
            115u8,
            99u8,
            114u8,
            111u8,
            119u8,
        ],
        Custody::Auction { .. } => vec![97u8, 117u8, 99u8, 116u8, 105u8, 111u8, 110u8],
        Custody::Raffle { .. } => vec![114u8, 97u8, 102u8, 102u8, 108u8, 101u8],
        Custody::Ticket { .. } => vec![116u8, 105u8, 99u8, 107u8, 101u8, 116u8],
        Custody::SwapVault => vec![109u8, 107u8, 110u8, 95u8, 118u8, 97u8, 117u8, 108u8, 116u8],
        Custody::SwapTokenVault => vec![
            109u8,
            107u8,
            110u8,
            95u8,
            118u8,
            97u8,
            117u8,
            108u8,
            116u8,
            95u8,
            116u8,
            111u8,
            107u8,
            101u8,
            110u8,
        ],
    };
    assert(r@ =~= seeds_of(*c)[0]);
    r
}

fn id_bytes(a: &AccountId) -> (r: Vec<u8>)
    ensures
        r@ == a.bytes@,
{
    let mut r: Vec<u8> = Vec::new();
    let mut i: usize = 0;
    while i < 32
        invariant
            i <= 32,
            r@ =~= a.bytes@.subrange(0, i as int),
        decreases 32 - i,
    {
        r.push(a.bytes[i]);
        i = i + 1;
    }
    assert(r@ =~= a.bytes@);
    r
}

proof fn lemma_bytes_deep_view(v: Vec<u8>)
    ensures
        v.deep_view() == v@,
{
    assert(v.deep_view() =~= v@);
}

/// The seed tuple of `c`.
pub fn seeds(c: &Custody) -> (r: Vec<Vec<u8>>)
    ensures
        r.deep_view() == seeds_of(*c),
{
    let mut r: Vec<Vec<u8>> = Vec::new();
    let t = tag(c);
    proof {
        lemma_bytes_deep_view(t);
    }
    r.push(t);
    match c {
        Custody::Escrow { buyer, order_id } => {
            let b = id_bytes(buyer);
            let n = u64_to_le_bytes(*order_id);
            proof {
                lemma_bytes_deep_view(b);
                lemma_bytes_deep_view(n);
            }
            r.push(b);
            r.push(n);
        },
        Custody::Auction { merchant } | Custody::Raffle { merchant } => {
            let b = id_bytes(merchant);
            proof {
                lemma_bytes_deep_view(b);
            }
            r.push(b);
        },
        Custody::Ticket { raffle, index } => {
            let b = id_bytes(raffle);
            let n = u64_to_le_bytes(*index);
            proof {
                lemma_bytes_deep_view(b);
                lemma_bytes_deep_view(n);
            }
            r.push(b);
            r.push(n);
        },
        _ => {},
    }
    assert(r.deep_view() =~= seeds_of(*c));
    r
}

/// The seeds that authorize a movement out of `c`, whose nonce is `bump`.
pub fn signer_seeds(c: &Custody, bump: u8) -> (r: Vec<Vec<u8>>)
    ensures
        r.deep_view() == signer_seeds_of(*c, bump),
{
    let mut r = seeds(c);
    let last: Vec<u8> = vec![bump];
    proof {
        lemma_bytes_deep_view(last);
        assert(last@ =~= seq![bump]);
    }
    r.push(last);
    assert(r.deep_view() =~= signer_seeds_of(*c, bump));
    r
}

/// Derives the address of `c` under `program_id` with its canonical nonce: the
/// first nonce, counting down from 255, that gives an address off the curve.
pub fn derive_custody(c: &Custody, program_id: &AccountId) -> (r: Option<(AccountId, u8)>)
    ensures
        r is Some <==> found_program_address(seeds_of(*c), program_id.bytes@) is Some,
        r matches Some((a, bump)) ==> found_program_address(seeds_of(*c), program_id.bytes@)
            == Some((a.bytes@, bump)),
        r matches Some((a, bump)) ==> program_address(signer_seeds_of(*c, bump), program_id.bytes@)
            == Some(a.bytes@),
{
    let s = seeds(c);
    try_find_program_address(&s, program_id)
}

/// Whether `address` is the account `c` with nonce `bump` under `program_id`:
/// the check that a presented custody account is the one its seeds name.
pub fn is_custody_address(c: &Custody, bump: u8, program_id: &AccountId, address: &AccountId) -> (r:
    bool)
    ensures
        r == (program_address(signer_seeds_of(*c, bump), program_id.bytes@) == Some(address.bytes@)),
{
    let s = signer_seeds(c, bump);
    match create_program_address(&s, program_id) {
        Some(a) => {
            let same = a == *address;
            proof {
                lemma_same_bytes(a, *address);
            }
            same
        },
        None => false,
    }
}

} // verus!
