use vstd::prelude::*;

use crate::account::AccountId;
use crate::transfer::{custody_delta, custody_flow, lemma_flow_concat, lemma_flow_one, Transfer};

verus! {

/// Why a raffle transition was refused.
#[derive(Clone, Copy, Debug, PartialEq, Eq, Structural)]
pub enum RaffleError {
    RaffleEnded,
    RaffleNotEnded,
    NoTicketsSold,
    WinnerAlreadySelected,
    WinnerNotSelected,
    PrizeAlreadyClaimed,
    NotTheWinner,
    Unauthorized,
}

/// The persisted record of a ticketed lottery. Its pool custody holds
/// `tickets_sold * ticket_price_lamports` until the prize is claimed, and
/// nothing after.
#[derive(Clone, Copy, Debug)]
pub struct Raffle {
    pub merchant: AccountId,
    pub category: u8,
    pub end_time_unix: i64,
    pub ticket_price_lamports: u64,
    /// Grows by exactly one per ticket sold.
    pub tickets_sold: u64,
    /// Set exactly once, by the draw.
    pub winning_ticket_index: Option<u64>,
    /// Set exactly once, when the pool is paid out.
    pub prize_claimed: bool,
    pub bump: u8,
}

/// One sold ticket; `index` is the number of tickets sold before it.
#[derive(Clone, Copy, Debug, PartialEq, Eq)]
pub struct Ticket {
    pub raffle: AccountId,
    pub owner: AccountId,
    pub index: u64,
    pub bump: u8,
}

/// What the pool holds while the prize is unclaimed.
pub open spec fn pool_of(r: Raffle) -> int {
    r.tickets_sold * r.ticket_price_lamports
}

impl Raffle {
    /// The drawn index names a sold ticket, a prize is claimed only after the
    /// draw, and the pool fits in 64 bits.
    pub open spec fn wf(&self) -> bool {
        &&& self.winning_ticket_index matches Some(w) ==> w < self.tickets_sold
        &&& self.prize_claimed ==> self.winning_ticket_index is Some
        &&& pool_of(*self) <= u64::MAX
    }

    /// What the pool custody holds: the price of every ticket sold until the
    /// prize is claimed, nothing after.
    pub open spec fn custody(&self) -> int {
        if self.prize_claimed {
            0
        } else {
            pool_of(*self)
        }
    }
}

/// Whether one more ticket keeps the count and the pool within 64 bits.
pub open spec fn has_room(r: Raffle) -> bool {
    r.tickets_sold < u64::MAX && pool_of(r) + r.ticket_price_lamports <= u64::MAX
}

/// Opens a raffle for `merchant` that sells tickets until `end_time_unix`.
pub fn initialize_raffle(
    merchant: AccountId,
    category: u8,
    end_time_unix: i64,
    ticket_price_lamports: u64,
    bump: u8,
) -> (r: Raffle)
    ensures
        r == (Raffle {
            merchant,
            category,
            end_time_unix,
            ticket_price_lamports,
            tickets_sold: 0,
            winning_ticket_index: None,
            prize_claimed: false,
            bump,
        }),
        r.wf(),
{
    Raffle {
        merchant,
        category,
        end_time_unix,
        ticket_price_lamports,
        tickets_sold: 0,
        winning_ticket_index: None,
        prize_claimed: false,
        bump,
    }
}

/// The error that refuses a purchase at `now`, if any.
pub open spec fn buy_rejection(r: Raffle, now: i64) -> Option<RaffleError> {
    if now >= r.end_time_unix {
        Some(RaffleError::RaffleEnded)
    } else if r.winning_ticket_index is Some {
        Some(RaffleError::WinnerAlreadySelected)
    } else {
        None
    }
}

/// The ticket a purchase issues.
pub open spec fn issued_ticket(r: Raffle, raffle_key: AccountId, buyer: AccountId, bump: u8) -> Ticket {
    Ticket { raffle: raffle_key, owner: buyer, index: r.tickets_sold, bump }
}

/// The record after a purchase.
pub open spec fn after_buy(r: Raffle) -> Raffle {
    Raffle { tickets_sold: (r.tickets_sold + 1) as u64, ..r }
}

/// Sells the next ticket of the raffle at `raffle_key` to `buyer`: the ticket
/// price moves into the pool and the ticket takes the number of tickets sold
/// before it as its index. On failure nothing changes or moves.
pub fn buy_ticket(
    raffle: &mut Raffle,
    raffle_key: AccountId,
    buyer: AccountId,
    now: i64,
    ticket_bump: u8,
) -> (r: Result<(Ticket, Transfer), RaffleError>)
    requires
        buy_rejection(*old(raffle), now) is None ==> has_room(*old(raffle)),
    ensures
        match r {
            Err(e) => {
                &&& buy_rejection(*old(raffle), now) == Some(e)
                &&& *final(raffle) == *old(raffle)
            },
            Ok((ticket, t)) => {
                &&& buy_rejection(*old(raffle), now) is None
                &&& ticket == issued_ticket(*old(raffle), raffle_key, buyer, ticket_bump)
                &&& t == Transfer::Deposit { from: buyer, amount: old(raffle).ticket_price_lamports }
                &&& *final(raffle) == after_buy(*old(raffle))
                &&& old(raffle).wf() ==> final(raffle).custody() == old(raffle).custody()
                    + custody_delta(t)
            },
        },
        old(raffle).wf() ==> final(raffle).wf(),
{
    if now >= raffle.end_time_unix {
        return Err(RaffleError::RaffleEnded);
    }
    if raffle.winning_ticket_index.is_some() {
        return Err(RaffleError::WinnerAlreadySelected);
    }
    let deposit = Transfer::Deposit { from: buyer, amount: raffle.ticket_price_lamports };
    let ticket = Ticket { raffle: raffle_key, owner: buyer, index: raffle.tickets_sold, bump: ticket_bump };
    raffle.tickets_sold = raffle.tickets_sold + 1;
    proof {
        let (before, after, price) = (
            old(raffle).tickets_sold as int,
            raffle.tickets_sold as int,
            raffle.ticket_price_lamports as int,
        );
        assert(after * price == before * price + price) by (nonlinear_arith)
            requires
                after == before + 1,
        ;
    }
    Ok((ticket, deposit))
}

/// The draw's seed: ledger slot plus ledger time, modulo 2^64.
pub open spec fn draw_seed(slot: u64, now: i64) -> int {
    (slot + now) % 0x1_0000_0000_0000_0000
}

/// The error that refuses a draw at `now`, if any.
pub open spec fn draw_rejection(r: Raffle, now: i64) -> Option<RaffleError> {
    if now < r.end_time_unix {
        Some(RaffleError::RaffleNotEnded)
    } else if r.tickets_sold == 0 {
        Some(RaffleError::NoTicketsSold)
    } else if r.winning_ticket_index is Some {
        Some(RaffleError::WinnerAlreadySelected)
    } else {
        None
    }
}

/// The record after a draw at ledger slot `slot` and time `now`.
pub open spec fn after_draw(r: Raffle, now: i64, slot: u64) -> Raffle {
    Raffle { winning_ticket_index: Some((draw_seed(slot, now) % r.tickets_sold as int) as u64), ..r }
}

/// Draws the winning ticket of an ended raffle, at anyone's request:
/// `(slot + now) mod 2^64 mod tickets_sold`. The source is weak: whoever
/// controls slot and time can steer it. On failure nothing changes.
pub fn pick_winner(raffle: &mut Raffle, now: i64, slot: u64) -> (r: Result<(), RaffleError>)
    ensures
        match r {
            Err(e) => {
                &&& draw_rejection(*old(raffle), now) == Some(e)
                &&& *final(raffle) == *old(raffle)
            },
            Ok(()) => {
                &&& draw_rejection(*old(raffle), now) is None
                &&& *final(raffle) == after_draw(*old(raffle), now, slot)
            },
        },
        old(raffle).wf() ==> final(raffle).wf(),
{
    if now < raffle.end_time_unix {
        return Err(RaffleError::RaffleNotEnded);
    }
    if raffle.tickets_sold == 0 {
        return Err(RaffleError::NoTicketsSold);
    }
    if raffle.winning_ticket_index.is_some() {
        return Err(RaffleError::WinnerAlreadySelected);
    }
    let seed = slot.wrapping_add_signed(now);
    assert(seed == draw_seed(slot, now));
    raffle.winning_ticket_index = Some(seed % raffle.tickets_sold);
    Ok(())
}

/// The error that refuses a claim of `ticket` by `caller`, if any.
pub open spec fn claim_rejection(r: Raffle, ticket: Ticket, caller: AccountId) -> Option<RaffleError> {
    if r.winning_ticket_index is None {
        Some(RaffleError::WinnerNotSelected)
    } else if r.winning_ticket_index != Some(ticket.index) {
        Some(RaffleError::NotTheWinner)
    } else if ticket.owner != caller {
        Some(RaffleError::Unauthorized)
    } else if r.prize_claimed {
        Some(RaffleError::PrizeAlreadyClaimed)
    } else {
        None
    }
}

/// The record after the prize is claimed.
pub open spec fn after_claim(r: Raffle) -> Raffle {
    Raffle { prize_claimed: true, ..r }
}

/// Claims the prize with the winning ticket, presented by its owner: the whole
/// pool goes to the merchant (the winner's prize is delivered off-ledger) and
/// the record marks the prize claimed, so the pool is empty. Fails with
/// `WinnerNotSelected` before the draw, then with `NotTheWinner` for another
/// ticket, then with `Unauthorized` for anyone but the ticket's owner, then
/// with `PrizeAlreadyClaimed` once the pool has been paid out. On failure
/// nothing changes or moves.
pub fn claim_prize(raffle: &mut Raffle, ticket: &Ticket, caller: AccountId) -> (r: Result<
    Transfer,
    RaffleError,
>)
    requires
        claim_rejection(*old(raffle), *ticket, caller) is None ==> pool_of(*old(raffle)) <= u64::MAX,
    ensures
        match r {
            Err(e) => {
                &&& claim_rejection(*old(raffle), *ticket, caller) == Some(e)
                &&& *final(raffle) == *old(raffle)
            },
            Ok(t) => {
                &&& claim_rejection(*old(raffle), *ticket, caller) is None
                &&& t == Transfer::Payout {
                    to: old(raffle).merchant,
                    amount: pool_of(*old(raffle)) as u64,
                }
                &&& *final(raffle) == after_claim(*old(raffle))
                &&& final(raffle).custody() == 0
                &&& old(raffle).custody() + custody_delta(t) == 0
            },
        },
        old(raffle).wf() ==> final(raffle).wf(),
{
    match raffle.winning_ticket_index {
        None => {
            return Err(RaffleError::WinnerNotSelected);
        },
        Some(w) => {
            if w != ticket.index {
                return Err(RaffleError::NotTheWinner);
            }
        },
    }
    if !(ticket.owner == caller) {
        return Err(RaffleError::Unauthorized);
    }
    if raffle.prize_claimed {
        return Err(RaffleError::PrizeAlreadyClaimed);
    }
    let pool = raffle.tickets_sold * raffle.ticket_price_lamports;
    raffle.prize_claimed = true;
    Ok(Transfer::Payout { to: raffle.merchant, amount: pool })
}

/// Claiming twice never pays twice: after a claim, every further claim, with
/// any ticket by anyone, is refused; the winning ticket presented by its owner
/// is refused with `PrizeAlreadyClaimed`.
pub proof fn lemma_claim_once(r: Raffle, t1: Ticket, c1: AccountId, t2: Ticket, c2: AccountId)
    requires
        claim_rejection(r, t1, c1) is None,
    ensures
        claim_rejection(after_claim(r), t2, c2) is Some,
        r.winning_ticket_index == Some(t2.index) && t2.owner == c2 ==> claim_rejection(
            after_claim(r),
            t2,
            c2,
        ) == Some(RaffleError::PrizeAlreadyClaimed),
{
}

/// One request made to a raffle. A claim names a ticket by its position among
/// the tickets issued so far.
pub enum RaffleStep {
    Buy { buyer: AccountId, now: i64, bump: u8 },
    Draw { now: i64, slot: u64 },
    Claim { ticket: int, caller: AccountId },
}

/// A raffle together with the tickets it has issued and every movement of its
/// pool so far.
pub struct RaffleRun {
    pub raffle: Raffle,
    pub tickets: Seq<Ticket>,
    pub transfers: Seq<Transfer>,
}

/// The run after one more request; a refused request changes nothing. A
/// purchase that would take the pool past 64 bits cannot be paid for, and a
/// claim with a ticket that was never issued finds no ticket.
pub open spec fn raffle_step(run: RaffleRun, key: AccountId, step: RaffleStep) -> RaffleRun {
    let r = run.raffle;
    match step {
        RaffleStep::Buy { buyer, now, bump } => if buy_rejection(r, now) is None && has_room(r) {
            RaffleRun {
                raffle: after_buy(r),
                tickets: run.tickets.push(issued_ticket(r, key, buyer, bump)),
                transfers: run.transfers.push(
                    Transfer::Deposit { from: buyer, amount: r.ticket_price_lamports },
                ),
            }
        } else {
            run
        },
        RaffleStep::Draw { now, slot } => if draw_rejection(r, now) is None {
            RaffleRun { raffle: after_draw(r, now, slot), ..run }
        } else {
            run
        },
        RaffleStep::Claim { ticket, caller } => if 0 <= ticket < run.tickets.len()
            && claim_rejection(r, run.tickets[ticket], caller) is None {
            RaffleRun {
                raffle: after_claim(r),
                transfers: run.transfers.push(
                    Transfer::Payout { to: r.merchant, amount: pool_of(r) as u64 },
                ),
                ..run
            }
        } else {
            run
        },
    }
}

/// The run of `steps`, in order, on the raffle at `key`, from `r` with nothing
/// issued or moved.
pub open spec fn raffle_run(r: Raffle, key: AccountId, steps: Seq<RaffleStep>) -> RaffleRun
    decreases steps.len(),
{
    if steps.len() == 0 {
        RaffleRun { raffle: r, tickets: Seq::empty(), transfers: Seq::empty() }
    } else {
        raffle_step(raffle_run(r, key, steps.drop_last()), key, steps.last())
    }
}

/// Over any sequence of requests on a fresh raffle, the tickets issued carry
/// exactly the indices `0 .. tickets_sold - 1`, each at its own position, so
/// no index is skipped or repeated; and the pool's movements add up to what
/// the record says custody holds: the price of every ticket sold until the
/// prize is claimed, and nothing after, whatever further claims are made.
pub proof fn lemma_raffle_run(r: Raffle, key: AccountId, steps: Seq<RaffleStep>)
    requires
        r.tickets_sold == 0,
        r.winning_ticket_index is None,
        !r.prize_claimed,
    ensures
        ({
            let run = raffle_run(r, key, steps);
            &&& run.tickets.len() == run.raffle.tickets_sold
            &&& forall|i: int| 0 <= i < run.tickets.len() ==> #[trigger] run.tickets[i].index == i
            &&& run.raffle.wf()
            &&& custody_flow(run.transfers) == run.raffle.custody()
        }),
{
    lemma_raffle_run_inv(r, key, steps);
}

/// What holds after every step of a run from a fresh raffle.
pub open spec fn run_inv(run: RaffleRun) -> bool {
    let r = run.raffle;
    &&& run.tickets.len() == r.tickets_sold
    &&& forall|i: int| 0 <= i < run.tickets.len() ==> #[trigger] run.tickets[i].index == i
    &&& r.prize_claimed ==> r.winning_ticket_index is Some
    &&& 0 <= pool_of(r) <= u64::MAX
    &&& custody_flow(run.transfers) == r.custody()
}

proof fn lemma_raffle_run_inv(r: Raffle, key: AccountId, steps: Seq<RaffleStep>)
    requires
        r.tickets_sold == 0,
        r.winning_ticket_index is None,
        !r.prize_claimed,
    ensures
        run_inv(raffle_run(r, key, steps)),
        raffle_run(r, key, steps).raffle.wf(),
    decreases steps.len(),
{
    if steps.len() == 0 {
        return;
    }
    lemma_raffle_run_inv(r, key, steps.drop_last());
    let run = raffle_run(r, key, steps.drop_last());
    let cur = run.raffle;
    let next = raffle_step(run, key, steps.last());
    match steps.last() {
        RaffleStep::Buy { buyer, now, bump } => {
            if buy_rejection(cur, now) is None && has_room(cur) {
                let d = Transfer::Deposit { from: buyer, amount: cur.ticket_price_lamports };
                lemma_flow_concat(run.transfers, seq![d], key);
                lemma_flow_one(d, key);
                assert(run.transfers.push(d) =~= run.transfers + seq![d]);
                assert(pool_of(next.raffle) == pool_of(cur) + cur.ticket_price_lamports) by (
                nonlinear_arith)
                    requires
                        next.raffle.tickets_sold == cur.tickets_sold + 1,
                        next.raffle.ticket_price_lamports == cur.ticket_price_lamports,
                ;
                assert forall|i: int| 0 <= i < next.tickets.len() implies #[trigger] next.tickets[i].index == i by {
                    if i < run.tickets.len() {
                        assert(next.tickets[i] == run.tickets[i]);
                    }
                }
            }
        },
        RaffleStep::Draw { now, slot } => {},
        RaffleStep::Claim { ticket, caller } => {
            if 0 <= ticket < run.tickets.len() && claim_rejection(cur, run.tickets[ticket], caller) is None {
                let p = Transfer::Payout { to: cur.merchant, amount: pool_of(cur) as u64 };
                lemma_flow_concat(run.transfers, seq![p], key);
                lemma_flow_one(p, key);
                assert(run.transfers.push(p) =~= run.transfers + seq![p]);
            }
        },
    }
}

} // verus!
