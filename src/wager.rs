//! Wager escrow: placing a stake on a market, refunding it while the market is
//! open, and paying a winner once the market is decided.
use vstd::prelude::*;
use crate::stake::{
    adjust_stake, decode_party, find_active_wager, first_index, net_stake, party_from_code,
    side_pool, shifted_pools, split_take_rate, stake_fits, store_pools,
};
use crate::types::{
    can_move, lifecycle_advances, move_lamports, pools_balanced, BetOutcomeStatus, BetState,
    BetStateStatus, ErrorCode, PartyStatus, Pubkey, UserAccount, WagerDetail,
};

verus! {

/// A user account after an instruction: same owner and counters, the given
/// active wagers and balance.
pub open spec fn ledger_becomes(
    pre: UserAccount,
    post: UserAccount,
    active: Seq<Pubkey>,
    balance: int,
) -> bool {
    &&& post.account_owner == pre.account_owner
    &&& post.wins == pre.wins
    &&& post.losses == pre.losses
    &&& post.active_wagers@ == active
    &&& post.current_balance == balance
}

/// The accounts that placing a wager loads: the market, the fresh wager
/// record, the bettor's ledger, and the lamports that the market and the
/// ledger hold.
#[derive(Clone, Debug)]
pub struct PlaceWager {
    pub bet_state: BetState,
    pub bet_state_key: Pubkey,
    pub bet_state_lamports: u64,
    pub wager_detail: WagerDetail,
    pub wager_detail_key: Pubkey,
    pub user_account: UserAccount,
    pub user_account_lamports: u64,
    pub bettor_account: Pubkey,
}

/// The error that placing a wager of `lamports` on party code `party` meets
/// first, if any.
pub open spec fn place_wager_error(ctx: PlaceWager, party: u8, lamports: u64) -> Option<ErrorCode> {
    if ctx.bet_state.status != BetStateStatus::Open {
        Some(ErrorCode::BetIsClosedOrSettled)
    } else if ctx.bet_state.bet_outcome != BetOutcomeStatus::Undecided {
        Some(ErrorCode::BetAlreadyDecided)
    } else if ctx.user_account.account_owner != ctx.bettor_account {
        Some(ErrorCode::NotAccountOwnerToPlaceWager)
    } else if party_from_code(party) is None {
        Some(ErrorCode::InvalidParty)
    } else if !stake_fits(ctx.bet_state, party_from_code(party)->0, net_stake(lamports))
        || lamports > ctx.user_account.current_balance || !can_move(
        ctx.user_account_lamports,
        ctx.bet_state_lamports,
        net_stake(lamports) as u64,
    ) {
        Some(ErrorCode::InvalidArgument)
    } else {
        None
    }
}

/// `post` is `pre` after a wager of `lamports` on party code `party` was
/// accepted.
pub open spec fn wager_placed(pre: PlaceWager, post: PlaceWager, party: u8, lamports: u64) -> bool {
    let side = party_from_code(party)->0;
    let net = net_stake(lamports);
    &&& post.bet_state == adjust_stake(pre.bet_state, side, net)
    &&& post.bet_state_key == pre.bet_state_key
    &&& post.bet_state_lamports == pre.bet_state_lamports + net
    &&& post.wager_detail == (WagerDetail {
        bettor: pre.bettor_account,
        bet_state: pre.bet_state_key,
        party: side,
        bet_value: net as u64,
    })
    &&& post.wager_detail_key == pre.wager_detail_key
    &&& ledger_becomes(
        pre.user_account,
        post.user_account,
        pre.user_account.active_wagers@.push(pre.wager_detail_key),
        pre.user_account.current_balance - lamports,
    )
    &&& post.user_account_lamports == pre.user_account_lamports - net
    &&& post.bettor_account == pre.bettor_account
}

/// Places a wager of `lamports` (gross, fee included) on party code `party`.
/// The net stake goes into the market's pools and lamports; the whole gross
/// amount leaves the user's spendable balance.
pub fn place_wager(ctx: &mut PlaceWager, party: u8, lamports: u64) -> (r: Result<(), ErrorCode>)
    ensures
        match place_wager_error(*old(ctx), party, lamports) {
            Some(e) => r == Err::<(), ErrorCode>(e) && *final(ctx) == *old(ctx),
            None => r is Ok && wager_placed(*old(ctx), *final(ctx), party, lamports),
        },
        lifecycle_advances(old(ctx).bet_state, final(ctx).bet_state),
        pools_balanced(old(ctx).bet_state) ==> pools_balanced(final(ctx).bet_state),
{
    if ctx.bet_state.status != BetStateStatus::Open {
        return Err(ErrorCode::BetIsClosedOrSettled);
    }
    if ctx.bet_state.bet_outcome != BetOutcomeStatus::Undecided {
        return Err(ErrorCode::BetAlreadyDecided);
    }
    if ctx.user_account.account_owner != ctx.bettor_account {
        return Err(ErrorCode::NotAccountOwnerToPlaceWager);
    }
    let side = match decode_party(party) {
        Some(s) => s,
        None => return Err(ErrorCode::InvalidParty),
    };
    let (net, _fee) = split_take_rate(lamports);
    let pools = match shifted_pools(&ctx.bet_state, side, net, true) {
        Some(p) => p,
        None => return Err(ErrorCode::InvalidArgument),
    };
    let balance = match ctx.user_account.current_balance.checked_sub(lamports) {
        Some(b) => b,
        None => return Err(ErrorCode::InvalidArgument),
    };
    let (user_lamports, market_lamports) = match move_lamports(
        ctx.user_account_lamports,
        ctx.bet_state_lamports,
        net,
    ) {
        Some(p) => p,
        None => return Err(ErrorCode::InvalidArgument),
    };
    store_pools(&mut ctx.bet_state, pools);
    ctx.wager_detail = WagerDetail {
        bettor: ctx.bettor_account,
        bet_state: ctx.bet_state_key,
        party: side,
        bet_value: net,
    };
    ctx.user_account.active_wagers.push(ctx.wager_detail_key);
    ctx.user_account.current_balance = balance;
    ctx.user_account_lamports = user_lamports;
    ctx.bet_state_lamports = market_lamports;
    Ok(())
}

/// The accounts that cancelling a wager loads.
#[derive(Clone, Debug)]
pub struct CancelWager {
    pub bet_state: BetState,
    pub bet_state_lamports: u64,
    pub wager_detail: WagerDetail,
    pub wager_detail_key: Pubkey,
    pub user_account: UserAccount,
    pub user_account_lamports: u64,
    pub bettor: Pubkey,
}

/// The error that cancelling the wager meets first, if any.
pub open spec fn cancel_wager_error(ctx: CancelWager) -> Option<ErrorCode> {
    let v = ctx.wager_detail.bet_value;
    if ctx.bet_state.status != BetStateStatus::Open {
        Some(ErrorCode::BetIsClosedOrSettled)
    } else if ctx.bet_state.bet_outcome != BetOutcomeStatus::Undecided {
        Some(ErrorCode::BetAlreadyDecided)
    } else if ctx.wager_detail.bettor != ctx.bettor {
        Some(ErrorCode::ConstraintRaw)
    } else if ctx.user_account.account_owner != ctx.bettor {
        Some(ErrorCode::NotAccountOwnerToPlaceWager)
    } else if ctx.user_account.active_wagers@.len() == 0 {
        Some(ErrorCode::ActiveWagersEmpty)
    } else if !ctx.user_account.active_wagers@.contains(ctx.wager_detail_key) {
        Some(ErrorCode::ActiveWagerNotFound)
    } else if !stake_fits(ctx.bet_state, ctx.wager_detail.party, -v)
        || ctx.user_account.current_balance + v > u64::MAX || !can_move(
        ctx.bet_state_lamports,
        ctx.user_account_lamports,
        v,
    ) {
        Some(ErrorCode::InvalidArgument)
    } else {
        None
    }
}

/// `post` is `pre` after its wager was refunded.
pub open spec fn wager_cancelled(pre: CancelWager, post: CancelWager) -> bool {
    let v = pre.wager_detail.bet_value;
    let active = pre.user_account.active_wagers@;
    &&& post.bet_state == adjust_stake(pre.bet_state, pre.wager_detail.party, -v)
    &&& post.bet_state_lamports == pre.bet_state_lamports - v
    &&& post.wager_detail == pre.wager_detail
    &&& post.wager_detail_key == pre.wager_detail_key
    &&& ledger_becomes(
        pre.user_account,
        post.user_account,
        active.remove(first_index(active, pre.wager_detail_key)),
        pre.user_account.current_balance + v,
    )
    &&& post.user_account_lamports == pre.user_account_lamports + v
    &&& post.bettor == pre.bettor
}

/// Refunds a wager on an open market: its stake leaves the pools, goes back
/// to the user's balance and lamports, and its address leaves the user's
/// active wagers. The wager record is to be destroyed after success.
pub fn cancel_wager(ctx: &mut CancelWager) -> (r: Result<(), ErrorCode>)
    ensures
        match cancel_wager_error(*old(ctx)) {
            Some(e) => r == Err::<(), ErrorCode>(e) && *final(ctx) == *old(ctx),
            None => r is Ok && wager_cancelled(*old(ctx), *final(ctx)),
        },
        ({
            let m = old(ctx).bet_state;
            let v = old(ctx).wager_detail.bet_value;
            v > m.static_total_pool || v > m.running_total_pool || v > side_pool(
                m,
                old(ctx).wager_detail.party,
            ) ==> r is Err && *final(ctx) == *old(ctx)
        }),
        lifecycle_advances(old(ctx).bet_state, final(ctx).bet_state),
        pools_balanced(old(ctx).bet_state) ==> pools_balanced(final(ctx).bet_state),
{
    if ctx.bet_state.status != BetStateStatus::Open {
        return Err(ErrorCode::BetIsClosedOrSettled);
    }
    if ctx.bet_state.bet_outcome != BetOutcomeStatus::Undecided {
        return Err(ErrorCode::BetAlreadyDecided);
    }
    if ctx.wager_detail.bettor != ctx.bettor {
        return Err(ErrorCode::ConstraintRaw);
    }
    if ctx.user_account.account_owner != ctx.bettor {
        return Err(ErrorCode::NotAccountOwnerToPlaceWager);
    }
    if ctx.user_account.active_wagers.len() == 0 {
        return Err(ErrorCode::ActiveWagersEmpty);
    }
    let pos = match find_active_wager(&ctx.user_account.active_wagers, ctx.wager_detail_key) {
        Some(i) => i,
        None => return Err(ErrorCode::ActiveWagerNotFound),
    };
    let value = ctx.wager_detail.bet_value;
    let pools = match shifted_pools(&ctx.bet_state, ctx.wager_detail.party, value, false) {
        Some(p) => p,
        None => return Err(ErrorCode::InvalidArgument),
    };
    let balance = match ctx.user_account.current_balance.checked_add(value) {
        Some(b) => b,
        None => return Err(ErrorCode::InvalidArgument),
    };
    let (market_lamports, user_lamports) = match move_lamports(
        ctx.bet_state_lamports,
        ctx.user_account_lamports,
        value,
    ) {
        Some(p) => p,
        None => return Err(ErrorCode::InvalidArgument),
    };
    store_pools(&mut ctx.bet_state, pools);
    ctx.user_account.active_wagers.remove(pos);
    ctx.user_account.current_balance = balance;
    ctx.bet_state_lamports = market_lamports;
    ctx.user_account_lamports = user_lamports;
    Ok(())
}

/// The accounts that claiming winnings loads.
#[derive(Clone, Debug)]
pub struct ClaimWinnings {
    pub bet_state: BetState,
    pub bet_state_key: Pubkey,
    pub bet_state_lamports: u64,
    pub wager_detail: WagerDetail,
    pub wager_detail_key: Pubkey,
    pub user_account: UserAccount,
    pub user_account_lamports: u64,
    pub bettor: Pubkey,
}

/// A wager on `party` is on the winning side of `outcome`.
pub open spec fn backs_winner(outcome: BetOutcomeStatus, party: PartyStatus) -> bool {
    ||| outcome == BetOutcomeStatus::PartyOneWin && party == PartyStatus::PartyOne
    ||| outcome == BetOutcomeStatus::PartyTwoWin && party == PartyStatus::PartyTwo
}

/// The error that claiming `winnings_amount` meets first, if any.
pub open spec fn claim_winnings_error(ctx: ClaimWinnings, winnings_amount: u64) -> Option<
    ErrorCode,
> {
    if ctx.bet_state.status != BetStateStatus::Closed {
        Some(ErrorCode::BetStillOpen)
    } else if ctx.bet_state.bet_outcome == BetOutcomeStatus::Undecided {
        Some(ErrorCode::BetStillUndecided)
    } else if ctx.wager_detail.bet_state != ctx.bet_state_key || ctx.wager_detail.bettor
        != ctx.bettor {
        Some(ErrorCode::ConstraintHasOne)
    } else if ctx.user_account.account_owner != ctx.bettor {
        Some(ErrorCode::NotAccountOwnerToClaimWinnings)
    } else if ctx.user_account.active_wagers@.len() == 0 {
        Some(ErrorCode::ActiveWagersEmpty)
    } else if !backs_winner(ctx.bet_state.bet_outcome, ctx.wager_detail.party) {
        Some(ErrorCode::NonWinningParty)
    } else if !ctx.user_account.active_wagers@.contains(ctx.wager_detail_key) {
        Some(ErrorCode::ActiveWagerNotFound)
    } else if winnings_amount > ctx.bet_state.running_total_pool
        || ctx.user_account.current_balance + winnings_amount > u64::MAX || !can_move(
        ctx.bet_state_lamports,
        ctx.user_account_lamports,
        winnings_amount,
    ) {
        Some(ErrorCode::InvalidArgument)
    } else {
        None
    }
}

/// `post` is `pre` after `winnings_amount` was paid out on its wager.
pub open spec fn winnings_claimed(pre: ClaimWinnings, post: ClaimWinnings, winnings_amount: u64) -> bool {
    let active = pre.user_account.active_wagers@;
    &&& post.bet_state == (BetState {
        running_total_pool: (pre.bet_state.running_total_pool - winnings_amount) as u64,
        ..pre.bet_state
    })
    &&& post.bet_state_key == pre.bet_state_key
    &&& post.bet_state_lamports == pre.bet_state_lamports - winnings_amount
    &&& post.wager_detail == pre.wager_detail
    &&& post.wager_detail_key == pre.wager_detail_key
    &&& ledger_becomes(
        pre.user_account,
        post.user_account,
        active.remove(first_index(active, pre.wager_detail_key)),
        pre.user_account.current_balance + winnings_amount,
    )
    &&& post.user_account_lamports == pre.user_account_lamports + winnings_amount
    &&& post.bettor == pre.bettor
}

/// Pays `winnings_amount` out of a decided market to the holder of a winning
/// wager: it leaves the running pool and the market's lamports, reaches the
/// user's balance and lamports, and the wager leaves the user's active
/// wagers. The wager record is to be destroyed after success.
pub fn claim_winnings(ctx: &mut ClaimWinnings, winnings_amount: u64) -> (r: Result<(), ErrorCode>)
    ensures
        match claim_winnings_error(*old(ctx), winnings_amount) {
            Some(e) => r == Err::<(), ErrorCode>(e) && *final(ctx) == *old(ctx),
            None => r is Ok && winnings_claimed(*old(ctx), *final(ctx), winnings_amount),
        },
        winnings_amount > old(ctx).bet_state.running_total_pool ==> r is Err && *final(ctx)
            == *old(ctx),
        lifecycle_advances(old(ctx).bet_state, final(ctx).bet_state),
        pools_balanced(old(ctx).bet_state) ==> pools_balanced(final(ctx).bet_state),
{
    if ctx.bet_state.status != BetStateStatus::Closed {
        return Err(ErrorCode::BetStillOpen);
    }
    if ctx.bet_state.bet_outcome == BetOutcomeStatus::Undecided {
        return Err(ErrorCode::BetStillUndecided);
    }
    if ctx.wager_detail.bet_state != ctx.bet_state_key || ctx.wager_detail.bettor != ctx.bettor {
        return Err(ErrorCode::ConstraintHasOne);
    }
    if ctx.user_account.account_owner != ctx.bettor {
        return Err(ErrorCode::NotAccountOwnerToClaimWinnings);
    }
    if ctx.user_account.active_wagers.len() == 0 {
        return Err(ErrorCode::ActiveWagersEmpty);
    }
    let winner = (ctx.bet_state.bet_outcome == BetOutcomeStatus::PartyOneWin
        && ctx.wager_detail.party == PartyStatus::PartyOne) || (ctx.bet_state.bet_outcome
        == BetOutcomeStatus::PartyTwoWin && ctx.wager_detail.party == PartyStatus::PartyTwo);
    if !winner {
        return Err(ErrorCode::NonWinningParty);
    }
    let pos = match find_active_wager(&ctx.user_account.active_wagers, ctx.wager_detail_key) {
        Some(i) => i,
        None => return Err(ErrorCode::ActiveWagerNotFound),
    };
    let running = match ctx.bet_state.running_total_pool.checked_sub(winnings_amount) {
        Some(v) => v,
        None => return Err(ErrorCode::InvalidArgument),
    };
    let balance = match ctx.user_account.current_balance.checked_add(winnings_amount) {
        Some(b) => b,
        None => return Err(ErrorCode::InvalidArgument),
    };
    let (market_lamports, user_lamports) = match move_lamports(
        ctx.bet_state_lamports,
        ctx.user_account_lamports,
        winnings_amount,
    ) {
        Some(p) => p,
        None => return Err(ErrorCode::InvalidArgument),
    };
    ctx.bet_state.running_total_pool = running;
    ctx.user_account.active_wagers.remove(pos);
    ctx.user_account.current_balance = balance;
    ctx.bet_state_lamports = market_lamports;
    ctx.user_account_lamports = user_lamports;
    Ok(())
}

} // verus!
