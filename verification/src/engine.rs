use vstd::prelude::*;
use crate::clock::unix_timestamp;
use crate::error::EscrowError;
use crate::identity::Identity;
use crate::oracle::TensorOracle;
use crate::state::{EscrowAccount, EscrowState, Wallet};
use crate::winner::{creator_wins, trader_wins};

verus! {

/// What creating an escrow works on: the creator's wallet and the account at
/// the address derived from the creator's identity.
#[derive(Clone, Debug, PartialEq, Eq)]
pub struct InitializeEscrow {
    pub trader: Wallet,
    pub escrow: EscrowAccount,
}

/// What accepting an escrow works on: the accepting party's wallet and the
/// escrow account.
#[derive(Clone, Debug, PartialEq, Eq)]
pub struct AcceptEscrow {
    pub trader: Wallet,
    pub escrow: EscrowAccount,
}

/// What settling an escrow works on: the wallet offered to receive the payout,
/// the escrow account, and the oracle to ask for the observed floor price.
#[derive(Clone, Debug, PartialEq, Eq)]
pub struct SettleEscrow<O: TensorOracle> {
    pub winner: Wallet,
    pub escrow: EscrowAccount,
    pub tensor_oracle: O,
}

/// Why creation is refused, if it is: a live record already stands at the
/// address, or the creator cannot cover the collateral.
pub open spec fn initialize_error(ctx: InitializeEscrow, margin_amount: u64) -> Option<EscrowError> {
    if ctx.escrow.state.is_live() {
        Some(EscrowError::DuplicateEscrow)
    } else if ctx.trader.balance < margin_amount {
        Some(EscrowError::InsufficientFunds)
    } else {
        None
    }
}

/// The context after a creation that was not refused: the collateral has moved
/// from the creator's wallet into custody, and the record is fresh.
pub open spec fn initialize_applied(
    ctx: InitializeEscrow,
    collection_id: String,
    predicted_floor: u64,
    expiry_timestamp: i64,
    margin_amount: u64,
) -> InitializeEscrow {
    InitializeEscrow {
        trader: Wallet {
            key: ctx.trader.key,
            balance: (ctx.trader.balance - margin_amount) as u64,
        },
        escrow: EscrowAccount {
            held: margin_amount,
            state: EscrowState {
                trader: ctx.trader.key,
                counterparty: None,
                collection_id,
                predicted_floor,
                expiry_timestamp,
                margin_amount,
                is_initialized: true,
                settled: false,
            },
        },
    }
}

/// A creation: the result and the context after it. A refusal leaves the
/// context as it was.
pub open spec fn initialize_step(
    ctx: InitializeEscrow,
    collection_id: String,
    predicted_floor: u64,
    expiry_timestamp: i64,
    margin_amount: u64,
) -> (Result<(), EscrowError>, InitializeEscrow) {
    match initialize_error(ctx, margin_amount) {
        Some(e) => (Err(e), ctx),
        None => (
            Ok(()),
            initialize_applied(ctx, collection_id, predicted_floor, expiry_timestamp, margin_amount),
        ),
    }
}

/// Why acceptance at time `now` is refused, if it is. The conditions are tried
/// in this order and the first that fails is reported.
pub open spec fn accept_error(ctx: AcceptEscrow, now: i64) -> Option<EscrowError> {
    let state = ctx.escrow.state;
    if state.settled {
        Some(EscrowError::AlreadySettled)
    } else if !state.is_initialized {
        Some(EscrowError::NotInitialized)
    } else if now >= state.expiry_timestamp {
        Some(EscrowError::Expired)
    } else if state.counterparty is Some {
        Some(EscrowError::AlreadyAccepted)
    } else if ctx.trader.balance < state.margin_amount {
        Some(EscrowError::InsufficientFunds)
    } else if ctx.escrow.held + state.margin_amount > u64::MAX {
        Some(EscrowError::Overflow)
    } else {
        None
    }
}

/// The context after an acceptance that was not refused: the collateral has
/// moved from the accepting wallet into custody, and the wallet's owner is
/// bound as counterparty.
pub open spec fn accept_applied(ctx: AcceptEscrow) -> AcceptEscrow {
    AcceptEscrow {
        trader: Wallet {
            key: ctx.trader.key,
            balance: (ctx.trader.balance - ctx.escrow.state.margin_amount) as u64,
        },
        escrow: EscrowAccount {
            held: (ctx.escrow.held + ctx.escrow.state.margin_amount) as u64,
            state: EscrowState { counterparty: Some(ctx.trader.key), ..ctx.escrow.state },
        },
    }
}

/// An acceptance at time `now`: the result and the context after it. A
/// refusal leaves the context as it was.
pub open spec fn accept_step(ctx: AcceptEscrow, now: i64) -> (Result<(), EscrowError>, AcceptEscrow) {
    match accept_error(ctx, now) {
        Some(e) => (Err(e), ctx),
        None => (Ok(()), accept_applied(ctx)),
    }
}

/// Why a record cannot be settled at time `now`, if it cannot, before any
/// price is asked for. The conditions are tried in this order.
pub open spec fn settle_precheck(state: EscrowState, now: i64) -> Option<EscrowError> {
    if state.settled {
        Some(EscrowError::AlreadySettled)
    } else if !state.is_initialized {
        Some(EscrowError::NotInitialized)
    } else if state.counterparty is None {
        Some(EscrowError::NoSecondTrader)
    } else if now < state.expiry_timestamp {
        Some(EscrowError::NotExpiredYet)
    } else {
        None
    }
}

/// Who wins an accepted wager when `observed_floor` is the observed value.
pub open spec fn winner_key(state: EscrowState, observed_floor: u64) -> Identity
    recommends
        state.counterparty is Some,
{
    if creator_wins(state.predicted_floor, observed_floor) {
        state.trader
    } else {
        state.counterparty.unwrap()
    }
}

/// Why settlement at time `now` with the observed value `observed_floor` is
/// refused, if it is: the record cannot be settled, the wallet offered is not
/// the winner's, or the payout does not fit into it.
pub open spec fn settle_error(
    winner: Wallet,
    escrow: EscrowAccount,
    now: i64,
    observed_floor: u64,
) -> Option<EscrowError> {
    if let Some(e) = settle_precheck(escrow.state, now) {
        Some(e)
    } else if winner.key != winner_key(escrow.state, observed_floor) {
        Some(EscrowError::WinnerMismatch)
    } else if winner.balance + escrow.held > u64::MAX {
        Some(EscrowError::Overflow)
    } else {
        None
    }
}

/// The winner's wallet after the payout: everything held has been added.
pub open spec fn paid_out(winner: Wallet, escrow: EscrowAccount) -> Wallet {
    Wallet { key: winner.key, balance: (winner.balance + escrow.held) as u64 }
}

/// The escrow account after the payout: nothing is held and the record is
/// settled for good.
pub open spec fn settled_account(escrow: EscrowAccount) -> EscrowAccount {
    EscrowAccount { held: 0, state: EscrowState { settled: true, ..escrow.state } }
}

/// A settlement at time `now` with the observed value `observed_floor`: the
/// result, the wallet offered and the escrow account after it. A refusal
/// leaves both as they were; otherwise the wallet's owner is the winner, the
/// wallet has received everything held, and the record is settled.
pub open spec fn settle_step(
    winner: Wallet,
    escrow: EscrowAccount,
    now: i64,
    observed_floor: u64,
) -> (Result<Identity, EscrowError>, Wallet, EscrowAccount) {
    match settle_error(winner, escrow, now, observed_floor) {
        Some(e) => (Err(e), winner, escrow),
        None => (Ok(winner.key), paid_out(winner, escrow), settled_account(escrow)),
    }
}

/// A settlement at time `now` for which the oracle gave `reply`: a record
/// that cannot be settled is refused as such whatever the reply; a failed
/// reply gives `OracleUnavailable` and changes nothing; a price gives the
/// settlement with that price.
pub open spec fn settle_reply_step(
    winner: Wallet,
    escrow: EscrowAccount,
    now: i64,
    reply: Result<u64, EscrowError>,
) -> (Result<Identity, EscrowError>, Wallet, EscrowAccount) {
    if let Some(e) = settle_precheck(escrow.state, now) {
        (Err(e), winner, escrow)
    } else {
        match reply {
            Err(_) => (Err(EscrowError::OracleUnavailable), winner, escrow),
            Ok(observed_floor) => settle_step(winner, escrow, now, observed_floor),
        }
    }
}

/// How a settlement at time `now` relates the context before it to the result
/// and the context after it. The oracle stays as it was. A record that cannot
/// be settled is refused as such and nothing changes; otherwise the outcome is
/// that of [`settle_reply_step`] for a reply that the oracle can give for the
/// record's collection.
pub open spec fn settled_at<O: TensorOracle>(
    before: SettleEscrow<O>,
    now: i64,
    res: Result<Identity, EscrowError>,
    after: SettleEscrow<O>,
) -> bool {
    &&& after.tensor_oracle == before.tensor_oracle
    &&& match settle_precheck(before.escrow.state, now) {
        Some(e) => res == Err::<Identity, EscrowError>(e) && after == before,
        None => exists|reply: Result<u64, EscrowError>|
            #![trigger before.tensor_oracle.can_reply(before.escrow.state.collection_id@, reply)]
            before.tensor_oracle.can_reply(before.escrow.state.collection_id@, reply) && (
                res,
                after.winner,
                after.escrow,
            ) == settle_reply_step(before.winner, before.escrow, now, reply),
    }
}

/// Why an acceptance is refused before the clock is read, if it is.
pub open spec fn accept_before_clock(state: EscrowState) -> Option<EscrowError> {
    if state.settled {
        Some(EscrowError::AlreadySettled)
    } else if !state.is_initialized {
        Some(EscrowError::NotInitialized)
    } else {
        None
    }
}

/// An acceptance for which the clock gave `clock`: a record that is settled
/// or was never created is refused as such whatever the clock gave; without a
/// clock the result is `ClockUnavailable` and nothing changes; with the time
/// `now` it is the acceptance at `now`.
pub open spec fn accept_clock_step(ctx: AcceptEscrow, clock: Option<i64>) -> (
    Result<(), EscrowError>,
    AcceptEscrow,
) {
    if let Some(e) = accept_before_clock(ctx.escrow.state) {
        (Err(e), ctx)
    } else {
        match clock {
            None => (Err(EscrowError::ClockUnavailable), ctx),
            Some(now) => accept_step(ctx, now),
        }
    }
}

/// Why a settlement is refused before the clock is read, if it is.
pub open spec fn settle_before_clock(state: EscrowState) -> Option<EscrowError> {
    if state.settled {
        Some(EscrowError::AlreadySettled)
    } else if !state.is_initialized {
        Some(EscrowError::NotInitialized)
    } else if state.counterparty is None {
        Some(EscrowError::NoSecondTrader)
    } else {
        None
    }
}

/// How a settlement for which the clock gave `clock` relates the context
/// before it to the result and the context after it: a record that is
/// settled, was never created or has no counterparty is refused as such
/// whatever the clock gave; without a clock the result is `ClockUnavailable`
/// and nothing changes; with the time `now` it is the settlement at `now`.
pub open spec fn settled_by_clock<O: TensorOracle>(
    before: SettleEscrow<O>,
    clock: Option<i64>,
    res: Result<Identity, EscrowError>,
    after: SettleEscrow<O>,
) -> bool {
    if let Some(e) = settle_before_clock(before.escrow.state) {
        res == Err::<Identity, EscrowError>(e) && after == before
    } else {
        match clock {
            None => res == Err::<Identity, EscrowError>(EscrowError::ClockUnavailable) && after
                == before,
            Some(now) => settled_at(before, now, res, after),
        }
    }
}

/// Creates the escrow record for `ctx.trader` and locks `margin_amount` of the
/// creator's balance in it. Refused with `DuplicateEscrow` while a live record
/// stands in `ctx.escrow`, and with `InsufficientFunds` when the creator's
/// balance is below `margin_amount`; a refusal changes nothing.
pub fn initialize_escrow(
    ctx: &mut InitializeEscrow,
    collection_id: String,
    predicted_floor: u64,
    expiry_timestamp: i64,
    margin_amount: u64,
) -> (res: Result<(), EscrowError>)
    requires
        old(ctx).escrow.wf(),
        margin_amount > 0,
    ensures
        final(ctx).escrow.wf(),
        (res, *final(ctx)) == initialize_step(
            *old(ctx),
            collection_id,
            predicted_floor,
            expiry_timestamp,
            margin_amount,
        ),
{
    if ctx.escrow.state.is_initialized && !ctx.escrow.state.settled {
        return Err(EscrowError::DuplicateEscrow);
    }
    if ctx.trader.balance < margin_amount {
        return Err(EscrowError::InsufficientFunds);
    }
    ctx.trader.balance = ctx.trader.balance - margin_amount;
    ctx.escrow.held = margin_amount;
    ctx.escrow.state = EscrowState {
        trader: ctx.trader.key,
        counterparty: None,
        collection_id,
        predicted_floor,
        expiry_timestamp,
        margin_amount,
        is_initialized: true,
        settled: false,
    };
    Ok(())
}

/// Binds `ctx.trader` as counterparty, the current time being `now`, and locks the same
/// collateral as the creator did. Refused, in this order, with
/// `AlreadySettled`, `NotInitialized`, `Expired` (when `now` has reached the
/// expiry time), `AlreadyAccepted`, `InsufficientFunds`, and `Overflow` when
/// the pooled collateral would not fit in 64 bits; a refusal changes nothing.
pub fn accept_escrow_at(ctx: &mut AcceptEscrow, now: i64) -> (res: Result<(), EscrowError>)
    requires
        old(ctx).escrow.wf(),
    ensures
        final(ctx).escrow.wf(),
        (res, *final(ctx)) == accept_step(*old(ctx), now),
{
    if ctx.escrow.state.settled {
        return Err(EscrowError::AlreadySettled);
    }
    if !ctx.escrow.state.is_initialized {
        return Err(EscrowError::NotInitialized);
    }
    if now >= ctx.escrow.state.expiry_timestamp {
        return Err(EscrowError::Expired);
    }
    if ctx.escrow.state.counterparty.is_some() {
        return Err(EscrowError::AlreadyAccepted);
    }
    let margin: u64 = ctx.escrow.state.margin_amount;
    if ctx.trader.balance < margin {
        return Err(EscrowError::InsufficientFunds);
    }
    if ctx.escrow.held > u64::MAX - margin {
        return Err(EscrowError::Overflow);
    }
    ctx.trader.balance = ctx.trader.balance - margin;
    ctx.escrow.held = ctx.escrow.held + margin;
    ctx.escrow.state.counterparty = Some(ctx.trader.key);
    Ok(())
}

/// Tests whether a record can be settled at time `now`: it must be unsettled,
/// created, accepted and expired, tried in that order.
pub fn check_settleable(state: &EscrowState, now: i64) -> (res: Result<(), EscrowError>)
    ensures
        match settle_precheck(*state, now) {
            Some(e) => res == Err::<(), EscrowError>(e),
            None => res is Ok,
        },
{
    if state.settled {
        Err(EscrowError::AlreadySettled)
    } else if !state.is_initialized {
        Err(EscrowError::NotInitialized)
    } else if state.counterparty.is_none() {
        Err(EscrowError::NoSecondTrader)
    } else if now < state.expiry_timestamp {
        Err(EscrowError::NotExpiredYet)
    } else {
        Ok(())
    }
}

/// Settles at time `now` with `observed_floor` as the observed value: decides
/// the winner, pays everything held into `winner`, and marks the record
/// settled. Returns the winner's identity. Refused when the record cannot be
/// settled, with `WinnerMismatch` when `winner` is not the winner's wallet, and
/// with `Overflow` when the payout does not fit into it; a refusal changes
/// nothing.
pub fn settle_with_price(
    winner: &mut Wallet,
    escrow: &mut EscrowAccount,
    now: i64,
    observed_floor: u64,
) -> (res: Result<Identity, EscrowError>)
    requires
        old(escrow).wf(),
    ensures
        final(escrow).wf(),
        (res, *final(winner), *final(escrow)) == settle_step(
            *old(winner),
            *old(escrow),
            now,
            observed_floor,
        ),
{
    match check_settleable(&escrow.state, now) {
        Err(e) => {
            return Err(e);
        },
        Ok(_) => {},
    }
    let winner_id: Identity = if trader_wins(escrow.state.predicted_floor, observed_floor) {
        escrow.state.trader
    } else {
        match escrow.state.counterparty {
            Some(counterparty) => counterparty,
            None => escrow.state.trader,
        }
    };
    if !winner.key.same_as(&winner_id) {
        return Err(EscrowError::WinnerMismatch);
    }
    if winner.balance > u64::MAX - escrow.held {
        return Err(EscrowError::Overflow);
    }
    winner.balance = winner.balance + escrow.held;
    escrow.held = 0;
    escrow.state.settled = true;
    Ok(winner_id)
}

/// Settles the escrow, the current time being `now`, asking
/// `ctx.tensor_oracle` for the observed floor price of the record's
/// collection.
///
/// A record that cannot be settled is refused before the oracle is asked. When
/// the oracle fails, the result is `OracleUnavailable` and nothing changes, so
/// the call may be repeated. Otherwise the outcome is that of
/// [`settle_with_price`] for the price that the oracle gave. The reply is one
/// that the oracle can give for the record's collection.
pub fn settle_escrow_at<O: TensorOracle>(ctx: &mut SettleEscrow<O>, now: i64) -> (res: Result<
    Identity,
    EscrowError,
>)
    requires
        old(ctx).escrow.wf(),
    ensures
        final(ctx).escrow.wf(),
        settled_at(*old(ctx), now, res, *final(ctx)),
{
    match check_settleable(&ctx.escrow.state, now) {
        Err(e) => {
            return Err(e);
        },
        Ok(_) => {},
    }
    let reply = ctx.tensor_oracle.get_floor_price(ctx.escrow.state.collection_id.as_str());
    match reply {
        Err(_) => Err(EscrowError::OracleUnavailable),
        Ok(observed_floor) => {
            let res = settle_with_price(&mut ctx.winner, &mut ctx.escrow, now, observed_floor);
            assert(old(ctx).tensor_oracle.can_reply(old(ctx).escrow.state.collection_id@, reply) && (
                res,
                ctx.winner,
                ctx.escrow,
            ) == settle_reply_step(old(ctx).winner, old(ctx).escrow, now, reply));
            res
        },
    }
}

/// Accepts the escrow at the time that the hosting runtime's clock gives.
///
/// A record that is settled or was never created is refused before the clock
/// is read. Where the runtime gives no clock, the result is
/// `ClockUnavailable` and nothing changes. Otherwise the outcome is that of
/// [`accept_escrow_at`] for the time read.
pub fn accept_escrow(ctx: &mut AcceptEscrow) -> (res: Result<(), EscrowError>)
    requires
        old(ctx).escrow.wf(),
    ensures
        final(ctx).escrow.wf(),
        exists|clock: Option<i64>| (res, *final(ctx)) == accept_clock_step(*old(ctx), clock),
{
    if ctx.escrow.state.settled {
        assert((Err::<(), EscrowError>(EscrowError::AlreadySettled), *ctx) == accept_clock_step(
            *old(ctx),
            None,
        ));
        return Err(EscrowError::AlreadySettled);
    }
    if !ctx.escrow.state.is_initialized {
        assert((Err::<(), EscrowError>(EscrowError::NotInitialized), *ctx) == accept_clock_step(
            *old(ctx),
            None,
        ));
        return Err(EscrowError::NotInitialized);
    }
    let clock = unix_timestamp();
    match clock {
        None => {
            assert((Err::<(), EscrowError>(EscrowError::ClockUnavailable), *ctx)
                == accept_clock_step(*old(ctx), clock));
            Err(EscrowError::ClockUnavailable)
        },
        Some(now) => {
            let res = accept_escrow_at(ctx, now);
            assert((res, *ctx) == accept_clock_step(*old(ctx), clock));
            res
        },
    }
}

/// Settles the escrow at the time that the hosting runtime's clock gives.
///
/// A record that is settled, was never created or has no counterparty is
/// refused before the clock is read. Where the runtime gives no clock, the
/// result is `ClockUnavailable` and nothing changes. Otherwise the outcome is
/// that of [`settle_escrow_at`] for the time read.
pub fn settle_escrow<O: TensorOracle>(ctx: &mut SettleEscrow<O>) -> (res: Result<
    Identity,
    EscrowError,
>)
    requires
        old(ctx).escrow.wf(),
    ensures
        final(ctx).escrow.wf(),
        exists|clock: Option<i64>| settled_by_clock(*old(ctx), clock, res, *final(ctx)),
{
    if ctx.escrow.state.settled {
        assert(settled_by_clock(
            *old(ctx),
            None,
            Err::<Identity, EscrowError>(EscrowError::AlreadySettled),
            *ctx,
        ));
        return Err(EscrowError::AlreadySettled);
    }
    if !ctx.escrow.state.is_initialized {
        assert(settled_by_clock(
            *old(ctx),
            None,
            Err::<Identity, EscrowError>(EscrowError::NotInitialized),
            *ctx,
        ));
        return Err(EscrowError::NotInitialized);
    }
    if ctx.escrow.state.counterparty.is_none() {
        assert(settled_by_clock(
            *old(ctx),
            None,
            Err::<Identity, EscrowError>(EscrowError::NoSecondTrader),
            *ctx,
        ));
        return Err(EscrowError::NoSecondTrader);
    }
    let clock = unix_timestamp();
    match clock {
        None => {
            assert(settled_by_clock(
                *old(ctx),
                clock,
                Err::<Identity, EscrowError>(EscrowError::ClockUnavailable),
                *ctx,
            ));
            Err(EscrowError::ClockUnavailable)
        },
        Some(now) => {
            let res = settle_escrow_at(ctx, now);
            assert(settled_by_clock(*old(ctx), clock, res, *ctx));
            res
        },
    }
}

} // verus!
