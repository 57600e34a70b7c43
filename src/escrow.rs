use vstd::prelude::*;

use crate::account::AccountId;
use crate::transfer::{custody_flow, lemma_flow_concat, lemma_flow_one, Transfer};

verus! {

/// The platform fee set at configuration time, in basis points (2%).
pub const FEE_BPS_DEFAULT: u16 = 200;

/// Basis points in a whole.
pub const BPS_DENOMINATOR: u64 = 10000;

/// Where an escrow stands. `Released` and `Refunded` are terminal.
#[derive(Clone, Copy, Debug, PartialEq, Eq, Structural)]
pub enum EscrowStatus {
    Pending,
    Funded,
    Released,
    Refunded,
    Expired,
}

/// Why an escrow transition was refused.
#[derive(Clone, Copy, Debug, PartialEq, Eq, Structural)]
pub enum EscrowError {
    InvalidAmount,
    InvalidExpiry,
    InvalidState,
    Unauthorized,
    NotExpired,
}

/// The platform's fee registry: created once, read by every settlement.
#[derive(Clone, Copy, Debug)]
pub struct Config {
    pub authority: AccountId,
    pub fee_bps: u16,
    pub fee_recipient: AccountId,
    pub bump: u8,
}

/// A buyer-funded payment held for a merchant until release, refund or expiry.
/// Its custody account holds `amount_lamports` while `Funded`, nothing otherwise.
#[derive(Clone, Copy, Debug)]
pub struct SolEscrow {
    pub order_id: u64,
    pub buyer: AccountId,
    pub merchant: AccountId,
    pub amount_lamports: u64,
    /// The platform fee at creation time.
    pub fee_bps: u16,
    pub status: EscrowStatus,
    pub bump: u8,
    pub created_at: i64,
    pub expires_at: i64,
}

impl Config {
    /// The fee is at most the whole amount.
    pub open spec fn wf(&self) -> bool {
        self.fee_bps <= BPS_DENOMINATOR
    }
}

impl SolEscrow {
    /// The fee snapshot is at most the whole amount.
    pub open spec fn wf(&self) -> bool {
        self.fee_bps <= BPS_DENOMINATOR
    }
}

/// The fee taken from `amount`: `fee_bps` parts in ten thousand, rounded down.
pub open spec fn fee_of(amount: u64, fee_bps: u16) -> int {
    (amount * fee_bps) as int / BPS_DENOMINATOR as int
}

/// Creates the fee registry with the default fee.
pub fn initialize_config(authority: AccountId, fee_recipient: AccountId, bump: u8) -> (r: Config)
    ensures
        r == (Config { authority, fee_bps: FEE_BPS_DEFAULT, fee_recipient, bump }),
        r.wf(),
{
    Config { authority, fee_bps: FEE_BPS_DEFAULT, fee_recipient, bump }
}

/// Splits `amount` into the platform fee and the merchant's payout; the two
/// add up to `amount` exactly.
pub fn fee_split(amount: u64, fee_bps: u16) -> (r: (u64, u64))
    requires
        fee_bps <= BPS_DENOMINATOR,
    ensures
        r.0 == fee_of(amount, fee_bps),
        r.0 + r.1 == amount,
{
    let total: u128 = amount as u128;
    proof {
        assert(total * fee_bps <= 0xffff_ffff_ffff_ffff * 0xffff) by (nonlinear_arith)
            requires
                total <= 0xffff_ffff_ffff_ffff,
                fee_bps <= 0xffff,
        ;
    }
    let product: u128 = total * fee_bps as u128;
    let fee: u128 = product / BPS_DENOMINATOR as u128;
    proof {
        assert(product <= total * BPS_DENOMINATOR) by (nonlinear_arith)
            requires
                product == total * fee_bps,
                fee_bps <= BPS_DENOMINATOR,
        ;
        assert(fee <= total) by (nonlinear_arith)
            requires
                fee == product / BPS_DENOMINATOR as u128,
                product <= total * BPS_DENOMINATOR,
        ;
    }
    (fee as u64, (total - fee) as u64)
}

/// Records an order of `amount_lamports` from `buyer` to `merchant`, expiring
/// at `expires_at`, in `Pending`. Fails with `InvalidAmount` for a zero amount,
/// then with `InvalidExpiry` unless the expiry lies after `now`.
pub fn initialize_escrow(
    config: &Config,
    order_id: u64,
    buyer: AccountId,
    merchant: AccountId,
    amount_lamports: u64,
    expires_at: i64,
    now: i64,
    bump: u8,
) -> (r: Result<SolEscrow, EscrowError>)
    ensures
        amount_lamports == 0 ==> r == Err::<SolEscrow, EscrowError>(EscrowError::InvalidAmount),
        amount_lamports > 0 && expires_at <= now ==> r == Err::<SolEscrow, EscrowError>(
            EscrowError::InvalidExpiry,
        ),
        amount_lamports > 0 && expires_at > now ==> r == Ok::<SolEscrow, EscrowError>(
            (SolEscrow {
                order_id,
                buyer,
                merchant,
                amount_lamports,
                fee_bps: config.fee_bps,
                status: EscrowStatus::Pending,
                bump,
                created_at: now,
                expires_at,
            }),
        ),
        config.wf() ==> (r matches Ok(e) ==> e.wf()),
{
    if amount_lamports == 0 {
        return Err(EscrowError::InvalidAmount);
    }
    if expires_at <= now {
        return Err(EscrowError::InvalidExpiry);
    }
    Ok(SolEscrow {
        order_id,
        buyer,
        merchant,
        amount_lamports,
        fee_bps: config.fee_bps,
        status: EscrowStatus::Pending,
        bump,
        created_at: now,
        expires_at,
    })
}

/// Funds a pending escrow: the amount moves from the buyer into custody.
/// Fails with `InvalidState` unless `Pending`, changing nothing.
pub fn fund_escrow(escrow: &mut SolEscrow) -> (r: Result<Transfer, EscrowError>)
    ensures
        old(escrow).status != EscrowStatus::Pending ==> r == Err::<Transfer, EscrowError>(
            EscrowError::InvalidState,
        ) && *final(escrow) == *old(escrow),
        old(escrow).status == EscrowStatus::Pending ==> r == Ok::<Transfer, EscrowError>(
            Transfer::Deposit { from: old(escrow).buyer, amount: old(escrow).amount_lamports },
        ) && *final(escrow) == (SolEscrow { status: EscrowStatus::Funded, ..*old(escrow) }),
{
    if escrow.status != EscrowStatus::Pending {
        return Err(EscrowError::InvalidState);
    }
    escrow.status = EscrowStatus::Funded;
    Ok(Transfer::Deposit { from: escrow.buyer, amount: escrow.amount_lamports })
}

/// Release is open to the merchant, the platform authority, and, once the
/// escrow has expired, to anyone.
pub open spec fn release_allowed(e: SolEscrow, c: Config, caller: AccountId, now: i64) -> bool {
    caller == e.merchant || caller == c.authority || now >= e.expires_at
}

/// Refund is open to the buyer, the platform authority, and, once the escrow
/// has expired, to anyone.
pub open spec fn refund_allowed(e: SolEscrow, c: Config, caller: AccountId, now: i64) -> bool {
    caller == e.buyer || caller == c.authority || now >= e.expires_at
}

/// Whether `caller` may release `escrow` at `now`.
pub fn can_release(escrow: &SolEscrow, config: &Config, caller: AccountId, now: i64) -> (r: bool)
    ensures
        r == release_allowed(*escrow, *config, caller, now),
{
    caller == escrow.merchant || caller == config.authority || now >= escrow.expires_at
}

/// Whether `caller` may refund `escrow` at `now`.
pub fn can_refund(escrow: &SolEscrow, config: &Config, caller: AccountId, now: i64) -> (r: bool)
    ensures
        r == refund_allowed(*escrow, *config, caller, now),
{
    caller == escrow.buyer || caller == config.authority || now >= escrow.expires_at
}

/// The error that refuses a release, if any.
pub open spec fn release_rejection(e: SolEscrow, c: Config, caller: AccountId, now: i64) -> Option<
    EscrowError,
> {
    if e.status != EscrowStatus::Funded {
        Some(EscrowError::InvalidState)
    } else if !release_allowed(e, c, caller, now) {
        Some(EscrowError::Unauthorized)
    } else {
        None
    }
}

/// The movements of a release: the payout to the merchant, then the fee to the
/// fee recipient when it is not zero.
pub open spec fn release_transfers(e: SolEscrow, c: Config) -> Seq<Transfer> {
    let fee = fee_of(e.amount_lamports, e.fee_bps);
    let payout = Transfer::Payout { to: e.merchant, amount: (e.amount_lamports - fee) as u64 };
    if fee > 0 {
        seq![payout, Transfer::Payout { to: c.fee_recipient, amount: fee as u64 }]
    } else {
        seq![payout]
    }
}

/// Releases a funded escrow to the merchant, less the platform fee, which goes
/// to the fee recipient; custody is emptied and the escrow is `Released`.
/// On failure nothing changes or moves.
pub fn release_escrow(escrow: &mut SolEscrow, config: &Config, caller: AccountId, now: i64) -> (r:
    Result<Vec<Transfer>, EscrowError>)
    requires
        old(escrow).wf(),
    ensures
        match r {
            Err(e) => {
                &&& release_rejection(*old(escrow), *config, caller, now) == Some(e)
                &&& *final(escrow) == *old(escrow)
            },
            Ok(ts) => {
                &&& release_rejection(*old(escrow), *config, caller, now) is None
                &&& ts@ == release_transfers(*old(escrow), *config)
                &&& custody_flow(ts@) == -(old(escrow).amount_lamports as int)
                &&& *final(escrow) == (SolEscrow { status: EscrowStatus::Released, ..*old(escrow) })
            },
        },
{
    if escrow.status != EscrowStatus::Funded {
        return Err(EscrowError::InvalidState);
    }
    if !can_release(escrow, config, caller, now) {
        return Err(EscrowError::Unauthorized);
    }
    let (fee, payout) = fee_split(escrow.amount_lamports, escrow.fee_bps);
    let mut transfers: Vec<Transfer> = Vec::new();
    transfers.push(Transfer::Payout { to: escrow.merchant, amount: payout });
    if fee > 0 {
        transfers.push(Transfer::Payout { to: config.fee_recipient, amount: fee });
    }
    proof {
        let first = Transfer::Payout { to: escrow.merchant, amount: payout };
        let second = Transfer::Payout { to: config.fee_recipient, amount: fee };
        if fee > 0 {
            assert(transfers@ =~= seq![first, second]);
        } else {
            assert(transfers@ =~= seq![first]);
        }
        lemma_release_flow(*old(escrow), *config);
    }
    escrow.status = EscrowStatus::Released;
    Ok(transfers)
}

/// The error that refuses a refund, if any.
pub open spec fn refund_rejection(e: SolEscrow, c: Config, caller: AccountId, now: i64) -> Option<
    EscrowError,
> {
    if e.status != EscrowStatus::Pending && e.status != EscrowStatus::Funded {
        Some(EscrowError::InvalidState)
    } else if !refund_allowed(e, c, caller, now) {
        Some(EscrowError::Unauthorized)
    } else {
        None
    }
}

/// The error that refuses an expiry, if any.
pub open spec fn expire_rejection(e: SolEscrow, now: i64) -> Option<EscrowError> {
    if e.status != EscrowStatus::Pending && e.status != EscrowStatus::Funded {
        Some(EscrowError::InvalidState)
    } else if now < e.expires_at {
        Some(EscrowError::NotExpired)
    } else {
        None
    }
}

/// What goes back to the buyer when an escrow is refunded: the whole amount
/// if it was funded, nothing if it never was.
pub open spec fn refund_transfer(e: SolEscrow) -> Option<Transfer> {
    if e.status == EscrowStatus::Funded {
        Some(Transfer::Payout { to: e.buyer, amount: e.amount_lamports })
    } else {
        None
    }
}

/// Returns the buyer's funds (if any were deposited) and marks the escrow
/// `Refunded`. Shared by refund and expiry once either has been authorized.
fn refund_to_buyer(escrow: &mut SolEscrow) -> (r: Option<Transfer>)
    ensures
        r == refund_transfer(*old(escrow)),
        *final(escrow) == (SolEscrow { status: EscrowStatus::Refunded, ..*old(escrow) }),
{
    let back = if escrow.status == EscrowStatus::Funded {
        Some(Transfer::Payout { to: escrow.buyer, amount: escrow.amount_lamports })
    } else {
        None
    };
    escrow.status = EscrowStatus::Refunded;
    back
}

/// Refunds a pending or funded escrow to its buyer at the request of the
/// buyer, the platform authority, or anyone after expiry; the escrow is
/// `Refunded`. On failure nothing changes or moves.
pub fn refund_escrow(escrow: &mut SolEscrow, config: &Config, caller: AccountId, now: i64) -> (r:
    Result<Option<Transfer>, EscrowError>)
    ensures
        match r {
            Err(e) => {
                &&& refund_rejection(*old(escrow), *config, caller, now) == Some(e)
                &&& *final(escrow) == *old(escrow)
            },
            Ok(t) => {
                &&& refund_rejection(*old(escrow), *config, caller, now) is None
                &&& t == refund_transfer(*old(escrow))
                &&& *final(escrow) == (SolEscrow { status: EscrowStatus::Refunded, ..*old(escrow) })
            },
        },
{
    if escrow.status != EscrowStatus::Pending && escrow.status != EscrowStatus::Funded {
        return Err(EscrowError::InvalidState);
    }
    if !can_refund(escrow, config, caller, now) {
        return Err(EscrowError::Unauthorized);
    }
    Ok(refund_to_buyer(escrow))
}

/// Refunds a pending or funded escrow to its buyer once it has expired, at
/// anyone's request; the escrow is `Refunded`. On failure nothing changes or
/// moves.
pub fn expire_escrow(escrow: &mut SolEscrow, now: i64) -> (r: Result<Option<Transfer>, EscrowError>)
    ensures
        match r {
            Err(e) => {
                &&& expire_rejection(*old(escrow), now) == Some(e)
                &&& *final(escrow) == *old(escrow)
            },
            Ok(t) => {
                &&& expire_rejection(*old(escrow), now) is None
                &&& t == refund_transfer(*old(escrow))
                &&& *final(escrow) == (SolEscrow { status: EscrowStatus::Refunded, ..*old(escrow) })
            },
        },
{
    if escrow.status != EscrowStatus::Pending && escrow.status != EscrowStatus::Funded {
        return Err(EscrowError::InvalidState);
    }
    if now < escrow.expires_at {
        return Err(EscrowError::NotExpired);
    }
    Ok(refund_to_buyer(escrow))
}

/// Releasing twice never pays twice: once a release has gone through, any
/// further release, by anyone at any time, fails with `InvalidState`.
pub proof fn lemma_release_once(
    e: SolEscrow,
    c: Config,
    first_caller: AccountId,
    t1: i64,
    second_caller: AccountId,
    t2: i64,
)
    requires
        release_rejection(e, c, first_caller, t1) is None,
    ensures
        release_rejection(
            SolEscrow { status: EscrowStatus::Released, ..e },
            c,
            second_caller,
            t2,
        ) == Some(EscrowError::InvalidState),
{
}

/// A release empties custody: its movements take out exactly the amount.
pub proof fn lemma_release_flow(e: SolEscrow, c: Config)
    requires
        e.fee_bps <= BPS_DENOMINATOR,
    ensures
        custody_flow(release_transfers(e, c)) == -(e.amount_lamports as int),
{
    let fee = fee_of(e.amount_lamports, e.fee_bps);
    assert(0 <= fee <= e.amount_lamports) by (nonlinear_arith)
        requires
            fee == (e.amount_lamports * e.fee_bps) as int / 10000,
            e.fee_bps <= 10000,
            e.amount_lamports >= 0,
    ;
    let first = Transfer::Payout { to: e.merchant, amount: (e.amount_lamports - fee) as u64 };
    let second = Transfer::Payout { to: c.fee_recipient, amount: fee as u64 };
    lemma_flow_one(first, e.merchant);
    if fee > 0 {
        assert(release_transfers(e, c) =~= seq![first] + seq![second]);
        lemma_flow_concat(seq![first], seq![second], e.merchant);
        lemma_flow_one(second, e.merchant);
    } else {
        assert(release_transfers(e, c) =~= seq![first]);
    }
}

/// A refund takes out of custody what a funded escrow holds, and nothing
/// from a pending one.
pub proof fn lemma_refund_flow(e: SolEscrow)
    ensures
        custody_flow(refund_transfers(e)) == if e.status == EscrowStatus::Funded {
            -(e.amount_lamports as int)
        } else {
            0
        },
{
    assert(custody_flow(Seq::<Transfer>::empty()) == 0);
    lemma_flow_one(Transfer::Payout { to: e.buyer, amount: e.amount_lamports }, e.buyer);
}

/// One request made to an escrow.
pub enum EscrowStep {
    Fund,
    Release { caller: AccountId, now: i64 },
    Refund { caller: AccountId, now: i64 },
    Expire { now: i64 },
}

/// The movements of a refund or an expiry, as a sequence.
pub open spec fn refund_transfers(e: SolEscrow) -> Seq<Transfer> {
    match refund_transfer(e) {
        Some(t) => seq![t],
        None => Seq::empty(),
    }
}

/// The escrow and its movements after one more request; a refused request
/// changes nothing and moves nothing.
pub open spec fn escrow_step(e: SolEscrow, c: Config, step: EscrowStep) -> (SolEscrow, Seq<Transfer>) {
    match step {
        EscrowStep::Fund => if e.status == EscrowStatus::Pending {
            (
                SolEscrow { status: EscrowStatus::Funded, ..e },
                seq![Transfer::Deposit { from: e.buyer, amount: e.amount_lamports }],
            )
        } else {
            (e, Seq::empty())
        },
        EscrowStep::Release { caller, now } => if release_rejection(e, c, caller, now) is None {
            (SolEscrow { status: EscrowStatus::Released, ..e }, release_transfers(e, c))
        } else {
            (e, Seq::empty())
        },
        EscrowStep::Refund { caller, now } => if refund_rejection(e, c, caller, now) is None {
            (SolEscrow { status: EscrowStatus::Refunded, ..e }, refund_transfers(e))
        } else {
            (e, Seq::empty())
        },
        EscrowStep::Expire { now } => if expire_rejection(e, now) is None {
            (SolEscrow { status: EscrowStatus::Refunded, ..e }, refund_transfers(e))
        } else {
            (e, Seq::empty())
        },
    }
}

/// The escrow and all its movements after `steps`, in order.
pub open spec fn escrow_run(e: SolEscrow, c: Config, steps: Seq<EscrowStep>) -> (SolEscrow, Seq<Transfer>)
    decreases steps.len(),
{
    if steps.len() == 0 {
        (e, Seq::empty())
    } else {
        let (prev, ts) = escrow_run(e, c, steps.drop_last());
        let (next, more) = escrow_step(prev, c, steps.last());
        (next, ts + more)
    }
}

/// Over any sequence of requests on a pending escrow, custody holds the
/// amount exactly while the escrow is funded and nothing otherwise: no value
/// is created, lost or left behind.
pub proof fn lemma_escrow_custody(e: SolEscrow, c: Config, steps: Seq<EscrowStep>)
    requires
        e.status == EscrowStatus::Pending,
        e.wf(),
    ensures
        ({
            let (end, ts) = escrow_run(e, c, steps);
            &&& end.amount_lamports == e.amount_lamports
            &&& end.status != EscrowStatus::Expired
            &&& custody_flow(ts) == if end.status == EscrowStatus::Funded {
                e.amount_lamports as int
            } else {
                0
            }
        }),
    decreases steps.len(),
{
    if steps.len() > 0 {
        lemma_escrow_custody(e, c, steps.drop_last());
        let (prev, ts) = escrow_run(e, c, steps.drop_last());
        let (next, more) = escrow_step(prev, c, steps.last());
        lemma_flow_concat(ts, more, e.buyer);
        assert(custody_flow(Seq::<Transfer>::empty()) == 0);
        lemma_escrow_run_keeps_terms(e, c, steps.drop_last());
        match steps.last() {
            EscrowStep::Fund => {
                if prev.status == EscrowStatus::Pending {
                    lemma_flow_one(Transfer::Deposit { from: e.buyer, amount: e.amount_lamports }, e.buyer);
                } else {
                    assert(custody_flow(more) == 0);
                }
            },
            EscrowStep::Release { caller, now } => {
                if release_rejection(prev, c, caller, now) is None {
                    lemma_release_flow(prev, c);
                } else {
                    assert(custody_flow(more) == 0);
                }
            },
            EscrowStep::Refund { caller, now } => {
                if refund_rejection(prev, c, caller, now) is None {
                    lemma_refund_flow(prev);
                }
            },
            EscrowStep::Expire { now } => {
                if expire_rejection(prev, now) is None {
                    lemma_refund_flow(prev);
                }
            },
        }
    }
}

/// A released or refunded escrow refuses every further request: nothing
/// changes and nothing moves.
pub proof fn lemma_escrow_terminal(e: SolEscrow, c: Config, step: EscrowStep)
    requires
        e.status == EscrowStatus::Released || e.status == EscrowStatus::Refunded,
    ensures
        escrow_step(e, c, step) == (e, Seq::<Transfer>::empty()),
{
}

/// The terms of an escrow stay as they were set.
pub proof fn lemma_escrow_run_keeps_terms(e: SolEscrow, c: Config, steps: Seq<EscrowStep>)
    ensures
        ({
            let end = escrow_run(e, c, steps).0;
            end == SolEscrow { status: end.status, ..e }
        }),
    decreases steps.len(),
{
    if steps.len() > 0 {
        lemma_escrow_run_keeps_terms(e, c, steps.drop_last());
    }
}

} // verus!
