use vstd::prelude::*;

use crate::account::AccountId;

verus! {

/// One movement of value between an entity's custody account and an ordinary
/// account. Custody is implied: each entity owns exactly one custody account
/// per asset, so a movement names only the other side.
#[derive(Clone, Copy, Debug, PartialEq, Eq)]
pub enum Transfer {
    /// `amount` moves from `from` into custody.
    Deposit { from: AccountId, amount: u64 },
    /// `amount` moves out of custody to `to`.
    Payout { to: AccountId, amount: u64 },
}

/// What one movement does to the custody balance.
pub open spec fn custody_delta(t: Transfer) -> int {
    match t {
        Transfer::Deposit { amount, .. } => amount as int,
        Transfer::Payout { amount, .. } => -(amount as int),
    }
}

/// What one movement does to the balance of `who`.
pub open spec fn party_delta(t: Transfer, who: AccountId) -> int {
    match t {
        Transfer::Deposit { from, amount } => if from == who { -(amount as int) } else { 0 },
        Transfer::Payout { to, amount } => if to == who { amount as int } else { 0 },
    }
}

/// Net change of the custody balance over a sequence of movements.
pub open spec fn custody_flow(ts: Seq<Transfer>) -> int
    decreases ts.len(),
{
    if ts.len() == 0 {
        0
    } else {
        custody_flow(ts.drop_last()) + custody_delta(ts.last())
    }
}

/// Net change of the balance of `who` over a sequence of movements.
pub open spec fn party_flow(ts: Seq<Transfer>, who: AccountId) -> int
    decreases ts.len(),
{
    if ts.len() == 0 {
        0
    } else {
        party_flow(ts.drop_last(), who) + party_delta(ts.last(), who)
    }
}

/// The flows of a single movement.
pub proof fn lemma_flow_one(t: Transfer, who: AccountId)
    ensures
        custody_flow(seq![t]) == custody_delta(t),
        party_flow(seq![t], who) == party_delta(t, who),
{
    assert(seq![t].drop_last() =~= Seq::<Transfer>::empty());
    assert(custody_flow(Seq::<Transfer>::empty()) == 0);
    assert(party_flow(Seq::<Transfer>::empty(), who) == 0);
}

/// Flows over a concatenation add up.
pub proof fn lemma_flow_concat(a: Seq<Transfer>, b: Seq<Transfer>, who: AccountId)
    ensures
        custody_flow(a + b) == custody_flow(a) + custody_flow(b),
        party_flow(a + b, who) == party_flow(a, who) + party_flow(b, who),
    decreases b.len(),
{
    if b.len() == 0 {
        assert(a + b =~= a);
    } else {
        lemma_flow_concat(a, b.drop_last(), who);
        assert((a + b).drop_last() =~= a + b.drop_last());
    }
}

} // verus!
