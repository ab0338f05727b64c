//! What holds of the escrow engine across calls, proved from the step
//! functions that the contracts of the operations are stated over.

use vstd::prelude::*;
use crate::engine::{
    accept_clock_step, accept_step, initialize_step, settle_before_clock, settle_precheck,
    settle_step, settled_at, settled_by_clock, winner_key, AcceptEscrow, InitializeEscrow,
    SettleEscrow,
};
use crate::error::EscrowError;
use crate::identity::Identity;
use crate::oracle::TensorOracle;
use crate::state::{EscrowAccount, Wallet};
use crate::winner::creator_wins;

verus! {

/// Settlement is terminal: after a settlement that succeeded, the record is
/// settled, and every later acceptance or settlement, by anyone, at any time
/// and for any observed value, is refused with `AlreadySettled` and leaves the
/// wallet and the escrow account as they were.
pub proof fn law_settlement_is_terminal(
    winner: Wallet,
    escrow: EscrowAccount,
    now: i64,
    observed_floor: u64,
    later_wallet: Wallet,
    later: i64,
    later_clock: Option<i64>,
    later_floor: u64,
)
    requires
        settle_step(winner, escrow, now, observed_floor).0 is Ok,
    ensures
        ({
            let settled = settle_step(winner, escrow, now, observed_floor).2;
            let later_ctx = AcceptEscrow { trader: later_wallet, escrow: settled };
            &&& settled.state.settled
            &&& accept_step(later_ctx, later) == (
                Err::<(), EscrowError>(EscrowError::AlreadySettled),
                later_ctx,
            )
            &&& accept_clock_step(later_ctx, later_clock) == (
                Err::<(), EscrowError>(EscrowError::AlreadySettled),
                later_ctx,
            )
            &&& settle_before_clock(settled.state) == Some(EscrowError::AlreadySettled)
            &&& settle_precheck(settled.state, later) == Some(EscrowError::AlreadySettled)
            &&& settle_step(later_wallet, settled, later, later_floor) == (
                Err::<Identity, EscrowError>(EscrowError::AlreadySettled),
                later_wallet,
                settled,
            )
        }),
{
}

/// A settlement of a settled record through a context with its oracle,
/// whether the time is given or read from the clock, is refused with
/// `AlreadySettled` and leaves the whole context as it was.
pub proof fn law_settled_context_is_refused<O: TensorOracle>(
    before: SettleEscrow<O>,
    now: i64,
    clock: Option<i64>,
    res: Result<Identity, EscrowError>,
    after: SettleEscrow<O>,
)
    requires
        before.escrow.state.settled,
        settled_at(before, now, res, after) || settled_by_clock(before, clock, res, after),
    ensures
        res == Err::<Identity, EscrowError>(EscrowError::AlreadySettled),
        after == before,
{
}

/// Conservation at settlement: a settlement that succeeds raises the winner's
/// balance by exactly twice the collateral amount and leaves exactly nothing
/// held.
pub proof fn law_settlement_conserves(
    winner: Wallet,
    escrow: EscrowAccount,
    now: i64,
    observed_floor: u64,
)
    requires
        escrow.wf(),
        settle_step(winner, escrow, now, observed_floor).0 is Ok,
    ensures
        ({
            let (_, winner_after, escrow_after) = settle_step(winner, escrow, now, observed_floor);
            &&& winner_after.key == winner.key
            &&& winner_after.balance == winner.balance + 2 * escrow.state.margin_amount
            &&& escrow_after.held == 0
        }),
{
}

/// What is held is what the record accounts for: once a record can be
/// settled, exactly twice the collateral amount is held, and every step,
/// refused or not, leaves the account in keeping with its record.
pub proof fn law_held_matches_record(
    wallet: Wallet,
    escrow: EscrowAccount,
    collection_id: String,
    predicted_floor: u64,
    expiry_timestamp: i64,
    margin_amount: u64,
    now: i64,
    observed_floor: u64,
)
    requires
        escrow.wf(),
    ensures
        settle_precheck(escrow.state, now) is None ==> escrow.held == 2 * escrow.state.margin_amount,
        margin_amount > 0 ==> initialize_step(
            InitializeEscrow { trader: wallet, escrow },
            collection_id,
            predicted_floor,
            expiry_timestamp,
            margin_amount,
        ).1.escrow.wf(),
        accept_step(AcceptEscrow { trader: wallet, escrow }, now).1.escrow.wf(),
        settle_step(wallet, escrow, now, observed_floor).2.wf(),
{
}

/// No step creates or destroys funds: the caller's balance and the held
/// balance together are the same before and after every creation, acceptance
/// and settlement, refused or not.
pub proof fn law_funds_are_conserved(
    wallet: Wallet,
    escrow: EscrowAccount,
    collection_id: String,
    predicted_floor: u64,
    expiry_timestamp: i64,
    margin_amount: u64,
    now: i64,
    observed_floor: u64,
)
    requires
        escrow.wf(),
    ensures
        ({
            let ctx = InitializeEscrow { trader: wallet, escrow };
            let after = initialize_step(
                ctx,
                collection_id,
                predicted_floor,
                expiry_timestamp,
                margin_amount,
            ).1;
            after.trader.balance + after.escrow.held == wallet.balance + escrow.held
        }),
        ({
            let after = accept_step(AcceptEscrow { trader: wallet, escrow }, now).1;
            after.trader.balance + after.escrow.held == wallet.balance + escrow.held
        }),
        ({
            let (_, wallet_after, escrow_after) = settle_step(wallet, escrow, now, observed_floor);
            wallet_after.balance + escrow_after.held == wallet.balance + escrow.held
        }),
{
}

/// The tie band: an observed value from 100 below the prediction to 100 above
/// it favours the creator; 101 above favours the counterparty; 101 below, like
/// every value below the prediction, favours the creator.
pub proof fn law_tie_band(predicted_floor: u64, observed_floor: u64)
    ensures
        predicted_floor - 100 <= observed_floor <= predicted_floor + 100 ==> creator_wins(
            predicted_floor,
            observed_floor,
        ),
        observed_floor == predicted_floor + 101 ==> !creator_wins(predicted_floor, observed_floor),
        observed_floor == predicted_floor - 101 ==> creator_wins(predicted_floor, observed_floor),
        creator_wins(predicted_floor, observed_floor) <==> observed_floor <= predicted_floor + 100,
{
}

/// A settlement that succeeds names the winner that the tie band gives: the
/// creator when the observed value is within 100 of the prediction or below
/// it, the counterparty from 101 above the prediction on.
pub proof fn law_settlement_awards_by_tie_band(
    winner: Wallet,
    escrow: EscrowAccount,
    now: i64,
    observed_floor: u64,
)
    requires
        settle_step(winner, escrow, now, observed_floor).0 is Ok,
    ensures
        escrow.state.counterparty is Some,
        settle_step(winner, escrow, now, observed_floor).0 == Ok::<
            Identity,
            EscrowError,
        >(winner_key(escrow.state, observed_floor)),
        escrow.state.predicted_floor - 100 <= observed_floor <= escrow.state.predicted_floor + 100
            ==> winner_key(escrow.state, observed_floor) == escrow.state.trader,
        observed_floor == escrow.state.predicted_floor + 101 ==> winner_key(
            escrow.state,
            observed_floor,
        ) == escrow.state.counterparty.unwrap(),
        observed_floor == escrow.state.predicted_floor - 101 ==> winner_key(
            escrow.state,
            observed_floor,
        ) == escrow.state.trader,
{
}

/// No acceptance after expiry: on a created, unsettled record, an acceptance
/// at the expiry time or later is refused with `Expired` and changes nothing.
pub proof fn law_no_acceptance_after_expiry(ctx: AcceptEscrow, now: i64)
    requires
        ctx.escrow.state.is_live(),
        now >= ctx.escrow.state.expiry_timestamp,
    ensures
        accept_step(ctx, now) == (Err::<(), EscrowError>(EscrowError::Expired), ctx),
        accept_clock_step(ctx, Some(now)) == (Err::<(), EscrowError>(EscrowError::Expired), ctx),
{
}

/// No settlement before expiry: on a created, accepted, unsettled record, a
/// settlement before the expiry time is refused with `NotExpiredYet`, before
/// any price is looked at, and changes nothing.
pub proof fn law_no_settlement_before_expiry(
    winner: Wallet,
    escrow: EscrowAccount,
    now: i64,
    observed_floor: u64,
)
    requires
        escrow.state.is_live(),
        escrow.state.counterparty is Some,
        now < escrow.state.expiry_timestamp,
    ensures
        settle_precheck(escrow.state, now) == Some(EscrowError::NotExpiredYet),
        settle_step(winner, escrow, now, observed_floor) == (
            Err::<Identity, EscrowError>(EscrowError::NotExpiredYet),
            winner,
            escrow,
        ),
{
}

/// The same through a context with its oracle, whether the time is given or
/// read from the clock: before the expiry time the settlement of a created,
/// accepted, unsettled record is refused with `NotExpiredYet`, the oracle's
/// reply plays no part, and the whole context stays as it was.
pub proof fn law_no_settlement_before_expiry_with_oracle<O: TensorOracle>(
    before: SettleEscrow<O>,
    now: i64,
    res: Result<Identity, EscrowError>,
    after: SettleEscrow<O>,
)
    requires
        before.escrow.state.is_live(),
        before.escrow.state.counterparty is Some,
        now < before.escrow.state.expiry_timestamp,
        settled_at(before, now, res, after) || settled_by_clock(before, Some(now), res, after),
    ensures
        res == Err::<Identity, EscrowError>(EscrowError::NotExpiredYet),
        after == before,
{
}

/// A creation that the creator cannot pay for fails and changes nothing: no
/// record is created and no funds move. Where no live record stands in the
/// way, the error is `InsufficientFunds`.
pub proof fn law_unfunded_creation_is_refused(
    ctx: InitializeEscrow,
    collection_id: String,
    predicted_floor: u64,
    expiry_timestamp: i64,
    margin_amount: u64,
)
    requires
        ctx.trader.balance < margin_amount,
    ensures
        ({
            let (res, after) = initialize_step(
                ctx,
                collection_id,
                predicted_floor,
                expiry_timestamp,
                margin_amount,
            );
            &&& res is Err
            &&& after == ctx
            &&& !ctx.escrow.state.is_live() ==> res == Err::<(), EscrowError>(
                EscrowError::InsufficientFunds,
            )
        }),
{
}

/// An acceptance that the caller cannot pay for fails and changes nothing:
/// the counterparty stays as it was and no funds move. Where the record is
/// open for acceptance at that time, the error is `InsufficientFunds`.
pub proof fn law_unfunded_acceptance_is_refused(ctx: AcceptEscrow, now: i64)
    requires
        ctx.trader.balance < ctx.escrow.state.margin_amount,
    ensures
        ({
            let (res, after) = accept_step(ctx, now);
            &&& res is Err
            &&& after == ctx
            &&& (ctx.escrow.state.is_live() && now < ctx.escrow.state.expiry_timestamp
                && ctx.escrow.state.counterparty is None) ==> res == Err::<(), EscrowError>(
                EscrowError::InsufficientFunds,
            )
        }),
{
}

/// Acceptance and settlement only move a record forward: a settled record
/// stays settled, a bound counterparty stays bound to the same identity, a
/// counterparty is bound only on an unsettled record, and the creator, the
/// collection, the prediction, the expiry time and the collateral amount
/// never change.
pub proof fn law_record_only_moves_forward(
    wallet: Wallet,
    escrow: EscrowAccount,
    now: i64,
    observed_floor: u64,
)
    ensures
        ({
            let accepted = accept_step(AcceptEscrow { trader: wallet, escrow }, now).1.escrow.state;
            let settled = settle_step(wallet, escrow, now, observed_floor).2.state;
            let before = escrow.state;
            &&& before.settled ==> accepted == before && settled == before
            &&& before.counterparty is Some ==> accepted.counterparty == before.counterparty
            &&& settled.counterparty == before.counterparty
            &&& before.settled ==> settled.settled
            &&& accepted.settled == before.settled
            &&& accepted.trader == before.trader && settled.trader == before.trader
            &&& accepted.collection_id == before.collection_id && settled.collection_id
                == before.collection_id
            &&& accepted.predicted_floor == before.predicted_floor && settled.predicted_floor
                == before.predicted_floor
            &&& accepted.expiry_timestamp == before.expiry_timestamp && settled.expiry_timestamp
                == before.expiry_timestamp
            &&& accepted.margin_amount == before.margin_amount && settled.margin_amount
                == before.margin_amount
            &&& accepted.is_initialized == before.is_initialized && settled.is_initialized
                == before.is_initialized
        }),
{
}

} // verus!
