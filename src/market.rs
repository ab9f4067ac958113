//! Market lifecycle: creating a market, closing it to new wagers, deciding
//! its outcome, and the two ways it ends (cancelled while empty, or settled
//! once every stake has been paid out).
use vstd::prelude::*;
use crate::types::{
    lifecycle_advances, pools_balanced, BetOutcomeStatus, BetRange, BetState, BetStateStatus,
    ErrorCode, Pubkey,
};

verus! {

/// The bucket that a range code names: 0 through 7, from a fall of three or
/// more to a rise of three or more.
pub open spec fn range_from_code(code: u8) -> Option<BetRange> {
    if code == 0 {
        Some(BetRange::NegativeThreeAndOver)
    } else if code == 1 {
        Some(BetRange::NegativeTwoToThree)
    } else if code == 2 {
        Some(BetRange::NegativeOneToTwo)
    } else if code == 3 {
        Some(BetRange::NegativeOneToZero)
    } else if code == 4 {
        Some(BetRange::ZeroToPositiveOne)
    } else if code == 5 {
        Some(BetRange::PositiveOneToTwo)
    } else if code == 6 {
        Some(BetRange::PositiveTwoToThree)
    } else if code == 7 {
        Some(BetRange::PositiveThreeAndOver)
    } else {
        None
    }
}

/// Reads a range code.
pub fn decode_range(code: u8) -> (r: Option<BetRange>)
    ensures
        r == range_from_code(code),
{
    match code {
        0 => Some(BetRange::NegativeThreeAndOver),
        1 => Some(BetRange::NegativeTwoToThree),
        2 => Some(BetRange::NegativeOneToTwo),
        3 => Some(BetRange::NegativeOneToZero),
        4 => Some(BetRange::ZeroToPositiveOne),
        5 => Some(BetRange::PositiveOneToTwo),
        6 => Some(BetRange::PositiveTwoToThree),
        7 => Some(BetRange::PositiveThreeAndOver),
        _ => None,
    }
}

/// The outcome that an outcome code names: 1 for party one, 2 for party two.
pub open spec fn outcome_from_code(code: u8) -> Option<BetOutcomeStatus> {
    if code == 1 {
        Some(BetOutcomeStatus::PartyOneWin)
    } else if code == 2 {
        Some(BetOutcomeStatus::PartyTwoWin)
    } else {
        None
    }
}

/// The accounts that creating a market loads: the fresh market record and
/// its creator.
#[derive(Clone, Debug)]
pub struct InitializeBetState {
    pub bet_state: BetState,
    pub bet_creator: Pubkey,
}

/// The market that creation yields: open, undecided, with empty pools.
pub open spec fn new_market(
    creator: Pubkey,
    start: u64,
    duration: u64,
    symbol: String,
    snapshot_price: u128,
    range: BetRange,
) -> BetState {
    BetState {
        symbol: symbol,
        creator: creator,
        running_total_pool: 0,
        static_total_pool: 0,
        party_one_pool: 0,
        party_two_pool: 0,
        start_price: 0,
        bet_outcome: BetOutcomeStatus::Undecided,
        status: BetStateStatus::Open,
        start_time: start,
        end_time: (start + duration) as u64,
        snapshot_price: snapshot_price,
        bet_range: range,
    }
}

/// Creates a market on `symbol` for the bucket `bet_range`, open from
/// `start` for `duration`.
pub fn initialize_bet_state(
    ctx: &mut InitializeBetState,
    start: u64,
    duration: u64,
    symbol: String,
    snapshot_price: u128,
    bet_range: u8,
) -> (r: Result<(), ErrorCode>)
    ensures
        range_from_code(bet_range) is None ==> r == Err::<(), ErrorCode>(
            ErrorCode::InvalidBetRange,
        ) && *final(ctx) == *old(ctx),
        range_from_code(bet_range) is Some && start + duration > u64::MAX ==> r == Err::<
            (),
            ErrorCode,
        >(ErrorCode::InvalidArgument) && *final(ctx) == *old(ctx),
        range_from_code(bet_range) is Some && start + duration <= u64::MAX ==> r is Ok
            && final(ctx).bet_creator == old(ctx).bet_creator && final(ctx).bet_state
            == new_market(
            old(ctx).bet_creator,
            start,
            duration,
            symbol,
            snapshot_price,
            range_from_code(bet_range)->0,
        ),
{
    let range = match decode_range(bet_range) {
        Some(b) => b,
        None => return Err(ErrorCode::InvalidBetRange),
    };
    let end = match start.checked_add(duration) {
        Some(e) => e,
        None => return Err(ErrorCode::InvalidArgument),
    };
    ctx.bet_state = BetState {
        symbol: symbol,
        creator: ctx.bet_creator,
        running_total_pool: 0,
        static_total_pool: 0,
        party_one_pool: 0,
        party_two_pool: 0,
        start_price: 0,
        bet_outcome: BetOutcomeStatus::Undecided,
        status: BetStateStatus::Open,
        start_time: start,
        end_time: end,
        snapshot_price: snapshot_price,
        bet_range: range,
    };
    Ok(())
}

/// The accounts that closing a market loads.
#[derive(Clone, Debug)]
pub struct CloseBetState {
    pub bet_state: BetState,
    pub bet_creator: Pubkey,
}

/// The error that closing the market meets first, if any.
pub open spec fn close_bet_state_error(ctx: CloseBetState) -> Option<ErrorCode> {
    if ctx.bet_state.creator != ctx.bet_creator {
        Some(ErrorCode::NotBetCreator)
    } else if ctx.bet_state.status != BetStateStatus::Open {
        Some(ErrorCode::BetIsClosedOrSettled)
    } else if ctx.bet_state.bet_outcome != BetOutcomeStatus::Undecided {
        Some(ErrorCode::BetAlreadyDecided)
    } else {
        None
    }
}

/// `post` is `pre` after the market was closed at `end`.
pub open spec fn market_closed(pre: CloseBetState, post: CloseBetState, end: u64) -> bool {
    &&& post.bet_creator == pre.bet_creator
    &&& post.bet_state == (BetState {
        end_time: end,
        status: BetStateStatus::Closed,
        ..pre.bet_state
    })
}

/// Closes an open market to new wagers, recording `end` as its end time.
pub fn close_bet_state(ctx: &mut CloseBetState, end: u64) -> (r: Result<(), ErrorCode>)
    ensures
        match close_bet_state_error(*old(ctx)) {
            Some(e) => r == Err::<(), ErrorCode>(e) && *final(ctx) == *old(ctx),
            None => r is Ok && market_closed(*old(ctx), *final(ctx), end),
        },
        lifecycle_advances(old(ctx).bet_state, final(ctx).bet_state),
        pools_balanced(old(ctx).bet_state) ==> pools_balanced(final(ctx).bet_state),
{
    if ctx.bet_state.creator != ctx.bet_creator {
        return Err(ErrorCode::NotBetCreator);
    }
    if ctx.bet_state.status != BetStateStatus::Open {
        return Err(ErrorCode::BetIsClosedOrSettled);
    }
    if ctx.bet_state.bet_outcome != BetOutcomeStatus::Undecided {
        return Err(ErrorCode::BetAlreadyDecided);
    }
    ctx.bet_state.end_time = end;
    ctx.bet_state.status = BetStateStatus::Closed;
    Ok(())
}

/// The accounts that cancelling a market loads.
#[derive(Clone, Debug)]
pub struct CancelBetState {
    pub bet_state: BetState,
    pub bettor: Pubkey,
}

/// The error that cancelling the market meets first, if any.
pub open spec fn cancel_bet_state_error(ctx: CancelBetState) -> Option<ErrorCode> {
    if ctx.bet_state.status != BetStateStatus::Open {
        Some(ErrorCode::BetIsClosedOrSettled)
    } else if ctx.bet_state.bet_outcome != BetOutcomeStatus::Undecided {
        Some(ErrorCode::BetAlreadyDecided)
    } else if ctx.bet_state.creator != ctx.bettor {
        Some(ErrorCode::NotBetCreator)
    } else if ctx.bet_state.running_total_pool != 0 {
        Some(ErrorCode::FundsStillInPlay)
    } else {
        None
    }
}

/// Checks that its creator may cancel an open market that holds no stake;
/// the market record is to be destroyed after success.
pub fn cancel_bet_state(ctx: &CancelBetState) -> (r: Result<(), ErrorCode>)
    ensures
        match cancel_bet_state_error(*ctx) {
            Some(e) => r == Err::<(), ErrorCode>(e),
            None => r is Ok,
        },
{
    if ctx.bet_state.status != BetStateStatus::Open {
        return Err(ErrorCode::BetIsClosedOrSettled);
    }
    if ctx.bet_state.bet_outcome != BetOutcomeStatus::Undecided {
        return Err(ErrorCode::BetAlreadyDecided);
    }
    if ctx.bet_state.creator != ctx.bettor {
        return Err(ErrorCode::NotBetCreator);
    }
    if ctx.bet_state.running_total_pool != 0 {
        return Err(ErrorCode::FundsStillInPlay);
    }
    Ok(())
}

/// The accounts that deciding a market loads.
#[derive(Clone, Debug)]
pub struct DecideBetState {
    pub bet_state: BetState,
    pub bet_creator: Pubkey,
}

/// The error that deciding the market by outcome code `outcome` meets first,
/// if any.
pub open spec fn decide_error(ctx: DecideBetState, outcome: u8) -> Option<ErrorCode> {
    if ctx.bet_state.creator != ctx.bet_creator {
        Some(ErrorCode::NotBetCreator)
    } else if ctx.bet_state.status != BetStateStatus::Closed {
        Some(ErrorCode::BetStillOpen)
    } else if ctx.bet_state.bet_outcome != BetOutcomeStatus::Undecided {
        Some(ErrorCode::BetAlreadyDecided)
    } else if outcome_from_code(outcome) is None {
        Some(ErrorCode::InvalidBetOutcome)
    } else {
        None
    }
}

/// `post` is `pre` after the market was decided by outcome code `outcome`.
pub open spec fn market_decided(pre: DecideBetState, post: DecideBetState, outcome: u8) -> bool {
    &&& post.bet_creator == pre.bet_creator
    &&& post.bet_state == (BetState { bet_outcome: outcome_from_code(outcome)->0, ..pre.bet_state })
}

/// Records the outcome of a closed, undecided market: code 1 for party one,
/// 2 for party two.
pub fn decide_bet_state_outcome(ctx: &mut DecideBetState, outcome: u8) -> (r: Result<
    (),
    ErrorCode,
>)
    ensures
        match decide_error(*old(ctx), outcome) {
            Some(e) => r == Err::<(), ErrorCode>(e) && *final(ctx) == *old(ctx),
            None => r is Ok && market_decided(*old(ctx), *final(ctx), outcome),
        },
        lifecycle_advances(old(ctx).bet_state, final(ctx).bet_state),
        pools_balanced(old(ctx).bet_state) ==> pools_balanced(final(ctx).bet_state),
{
    if ctx.bet_state.creator != ctx.bet_creator {
        return Err(ErrorCode::NotBetCreator);
    }
    if ctx.bet_state.status != BetStateStatus::Closed {
        return Err(ErrorCode::BetStillOpen);
    }
    if ctx.bet_state.bet_outcome != BetOutcomeStatus::Undecided {
        return Err(ErrorCode::BetAlreadyDecided);
    }
    match outcome {
        1 => {
            ctx.bet_state.bet_outcome = BetOutcomeStatus::PartyOneWin;
        },
        2 => {
            ctx.bet_state.bet_outcome = BetOutcomeStatus::PartyTwoWin;
        },
        _ => {
            return Err(ErrorCode::InvalidBetOutcome);
        },
    }
    Ok(())
}

/// The accounts that settling a market loads.
#[derive(Clone, Debug)]
pub struct SettleBetState {
    pub bet_state: BetState,
    pub bet_creator: Pubkey,
}

/// The error that settling the market meets first, if any.
pub open spec fn settle_error(ctx: SettleBetState) -> Option<ErrorCode> {
    if ctx.bet_state.status != BetStateStatus::Closed {
        Some(ErrorCode::BetStillOpen)
    } else if ctx.bet_state.bet_outcome == BetOutcomeStatus::Undecided {
        Some(ErrorCode::BetStillUndecided)
    } else if ctx.bet_state.creator != ctx.bet_creator {
        Some(ErrorCode::NotBetCreator)
    } else if ctx.bet_state.running_total_pool != 0 {
        Some(ErrorCode::FundsStillInPlay)
    } else {
        None
    }
}

/// `post` is `pre` after the market was settled.
pub open spec fn market_settled(pre: SettleBetState, post: SettleBetState) -> bool {
    &&& post.bet_creator == pre.bet_creator
    &&& post.bet_state == (BetState { status: BetStateStatus::Settled, ..pre.bet_state })
}

/// Settles a closed, decided market whose running pool has been paid out;
/// the market record is to be destroyed after success.
pub fn settle_bet_state(ctx: &mut SettleBetState) -> (r: Result<(), ErrorCode>)
    ensures
        match settle_error(*old(ctx)) {
            Some(e) => r == Err::<(), ErrorCode>(e) && *final(ctx) == *old(ctx),
            None => r is Ok && market_settled(*old(ctx), *final(ctx)),
        },
        lifecycle_advances(old(ctx).bet_state, final(ctx).bet_state),
        pools_balanced(old(ctx).bet_state) ==> pools_balanced(final(ctx).bet_state),
{
    if ctx.bet_state.status != BetStateStatus::Closed {
        return Err(ErrorCode::BetStillOpen);
    }
    if ctx.bet_state.bet_outcome == BetOutcomeStatus::Undecided {
        return Err(ErrorCode::BetStillUndecided);
    }
    if ctx.bet_state.creator != ctx.bet_creator {
        return Err(ErrorCode::NotBetCreator);
    }
    if ctx.bet_state.running_total_pool != 0 {
        return Err(ErrorCode::FundsStillInPlay);
    }
    ctx.bet_state.status = BetStateStatus::Settled;
    Ok(())
}

} // verus!
