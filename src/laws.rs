//! Properties that hold across instructions: pool conservation, balance
//! conservation and the at-most-once settlement of a wager.
use vstd::prelude::*;
use crate::market::{
    market_closed, market_decided, market_settled, CloseBetState, DecideBetState, SettleBetState,
};
use crate::stake::{first_index, net_stake};
use crate::types::{pools_balanced, BetState, Pubkey, UserAccount, WagerDetail};
use crate::user::{deposited, withdrawn, DepositIntoAccount, WithdrawFromAccount};
use crate::wager::{
    cancel_wager_error, claim_winnings_error, place_wager_error, wager_cancelled, wager_placed,
    winnings_claimed, CancelWager, ClaimWinnings, PlaceWager,
};

verus! {

/// Sum of the stakes, among the live wagers `live`, of those that belong to
/// the market at `market`.
pub open spec fn stake_on(live: Seq<WagerDetail>, market: Pubkey) -> int
    decreases live.len(),
{
    if live.len() == 0 {
        0
    } else {
        stake_on(live.drop_last(), market) + if live.last().bet_state == market {
            live.last().bet_value as int
        } else {
            0
        }
    }
}

/// The market at `key` has balanced side pools, and its running pool is what
/// its live wagers staked.
pub open spec fn pools_conserved(m: BetState, key: Pubkey, live: Seq<WagerDetail>) -> bool {
    &&& pools_balanced(m)
    &&& m.running_total_pool == stake_on(live, key)
}

/// Sum of the stakes of the wagers whose addresses `keys` lists, read from
/// the live wager records `wagers`.
pub open spec fn active_stake(keys: Seq<Pubkey>, wagers: Map<Pubkey, WagerDetail>) -> int
    decreases keys.len(),
{
    if keys.len() == 0 {
        0
    } else {
        active_stake(keys.drop_last(), wagers) + wagers[keys.last()].bet_value
    }
}

/// The user's spendable balance plus the stakes of their active wagers is
/// `funding`: what they deposited, less what they withdrew and paid in fees.
pub open spec fn balance_conserved(
    u: UserAccount,
    wagers: Map<Pubkey, WagerDetail>,
    funding: int,
) -> bool {
    u.current_balance + active_stake(u.active_wagers@, wagers) == funding
}

/// Every active wager of the user has a live record.
pub open spec fn wagers_known(u: UserAccount, wagers: Map<Pubkey, WagerDetail>) -> bool {
    forall|i: int| 0 <= i < u.active_wagers@.len() ==> wagers.contains_key(
        #[trigger] u.active_wagers@[i],
    )
}

proof fn lemma_stake_on_remove(live: Seq<WagerDetail>, market: Pubkey, i: int)
    requires
        0 <= i < live.len(),
    ensures
        stake_on(live.remove(i), market) == stake_on(live, market) - if live[i].bet_state
            == market {
            live[i].bet_value as int
        } else {
            0
        },
    decreases live.len(),
{
    if i == live.len() - 1 {
        assert(live.remove(i) =~= live.drop_last());
    } else {
        lemma_stake_on_remove(live.drop_last(), market, i);
        assert(live.remove(i).drop_last() =~= live.drop_last().remove(i));
        assert(live.remove(i).last() == live.last());
    }
}

proof fn lemma_stake_on_push(live: Seq<WagerDetail>, market: Pubkey, w: WagerDetail)
    ensures
        stake_on(live.push(w), market) == stake_on(live, market) + if w.bet_state == market {
            w.bet_value as int
        } else {
            0
        },
{
    assert(live.push(w).drop_last() =~= live);
}

proof fn lemma_active_stake_remove(keys: Seq<Pubkey>, wagers: Map<Pubkey, WagerDetail>, i: int)
    requires
        0 <= i < keys.len(),
    ensures
        active_stake(keys.remove(i), wagers) == active_stake(keys, wagers)
            - wagers[keys[i]].bet_value,
    decreases keys.len(),
{
    if i == keys.len() - 1 {
        assert(keys.remove(i) =~= keys.drop_last());
    } else {
        lemma_active_stake_remove(keys.drop_last(), wagers, i);
        assert(keys.remove(i).drop_last() =~= keys.drop_last().remove(i));
        assert(keys.remove(i).last() == keys.last());
    }
}

proof fn lemma_active_stake_insert(
    keys: Seq<Pubkey>,
    wagers: Map<Pubkey, WagerDetail>,
    k: Pubkey,
    w: WagerDetail,
)
    requires
        forall|i: int| 0 <= i < keys.len() ==> keys[i] != k,
    ensures
        active_stake(keys, wagers.insert(k, w)) == active_stake(keys, wagers),
    decreases keys.len(),
{
    if keys.len() > 0 {
        lemma_active_stake_insert(keys.drop_last(), wagers, k, w);
        assert(keys.last() == keys[keys.len() - 1]);
    }
}

proof fn lemma_earliest(s: Seq<Pubkey>, k: Pubkey, j: int)
    requires
        0 <= j < s.len(),
        s[j] == k,
    ensures
        exists|m: int| 0 <= m < s.len() && s[m] == k && forall|a: int| 0 <= a < m ==> s[a] != k,
    decreases j,
{
    if exists|a: int| 0 <= a < j && s[a] == k {
        let a = choose|a: int| 0 <= a < j && s[a] == k;
        lemma_earliest(s, k, a);
    } else {
        assert(forall|a: int| 0 <= a < j ==> s[a] != k);
    }
}

proof fn lemma_first_index(s: Seq<Pubkey>, k: Pubkey)
    requires
        s.contains(k),
    ensures
        0 <= first_index(s, k) < s.len(),
        s[first_index(s, k)] == k,
{
    reveal(first_index);
    let j = choose|j: int| 0 <= j < s.len() && s[j] == k;
    lemma_earliest(s, k, j);
}

/// Placing a wager keeps a market's pools conserved once the new wager joins
/// the live wagers.
pub proof fn place_wager_conserves_pools(
    pre: PlaceWager,
    post: PlaceWager,
    party: u8,
    lamports: u64,
    live: Seq<WagerDetail>,
)
    requires
        place_wager_error(pre, party, lamports) is None,
        wager_placed(pre, post, party, lamports),
        pools_conserved(pre.bet_state, pre.bet_state_key, live),
    ensures
        pools_conserved(post.bet_state, post.bet_state_key, live.push(post.wager_detail)),
{
    lemma_stake_on_push(live, pre.bet_state_key, post.wager_detail);
}

/// Refunding a live wager of a market keeps that market's pools conserved
/// once the wager leaves the live wagers.
pub proof fn cancel_wager_conserves_pools(
    pre: CancelWager,
    post: CancelWager,
    market: Pubkey,
    live: Seq<WagerDetail>,
    i: int,
)
    requires
        cancel_wager_error(pre) is None,
        wager_cancelled(pre, post),
        pools_conserved(pre.bet_state, market, live),
        0 <= i < live.len(),
        live[i] == pre.wager_detail,
        pre.wager_detail.bet_state == market,
    ensures
        pools_conserved(post.bet_state, market, live.remove(i)),
{
    lemma_stake_on_remove(live, market, i);
}

/// Paying out exactly a wager's stake keeps its market's pools conserved
/// once the wager leaves the live wagers.
pub proof fn claim_winnings_conserves_pools(
    pre: ClaimWinnings,
    post: ClaimWinnings,
    winnings_amount: u64,
    live: Seq<WagerDetail>,
    i: int,
)
    requires
        claim_winnings_error(pre, winnings_amount) is None,
        winnings_claimed(pre, post, winnings_amount),
        winnings_amount == pre.wager_detail.bet_value,
        pools_conserved(pre.bet_state, pre.bet_state_key, live),
        0 <= i < live.len(),
        live[i] == pre.wager_detail,
    ensures
        pools_conserved(post.bet_state, post.bet_state_key, live.remove(i)),
{
    lemma_stake_on_remove(live, pre.bet_state_key, i);
}

/// Closing, deciding and settling a market leave its pools conserved.
pub proof fn lifecycle_conserves_pools(
    close_pre: CloseBetState,
    close_post: CloseBetState,
    end: u64,
    decide_pre: DecideBetState,
    decide_post: DecideBetState,
    outcome: u8,
    settle_pre: SettleBetState,
    settle_post: SettleBetState,
    market: Pubkey,
    live: Seq<WagerDetail>,
)
    ensures
        market_closed(close_pre, close_post, end) && pools_conserved(
            close_pre.bet_state,
            market,
            live,
        ) ==> pools_conserved(close_post.bet_state, market, live),
        market_decided(decide_pre, decide_post, outcome) && pools_conserved(
            decide_pre.bet_state,
            market,
            live,
        ) ==> pools_conserved(decide_post.bet_state, market, live),
        market_settled(settle_pre, settle_post) && pools_conserved(
            settle_pre.bet_state,
            market,
            live,
        ) ==> pools_conserved(settle_post.bet_state, market, live),
{
}

/// Placing a wager keeps a user's balance conserved, with the fee taken off
/// what they put in, once the new wager's record is live.
pub proof fn place_wager_conserves_balance(
    pre: PlaceWager,
    post: PlaceWager,
    party: u8,
    lamports: u64,
    wagers: Map<Pubkey, WagerDetail>,
    funding: int,
)
    requires
        place_wager_error(pre, party, lamports) is None,
        wager_placed(pre, post, party, lamports),
        wagers_known(pre.user_account, wagers),
        !wagers.contains_key(pre.wager_detail_key),
        balance_conserved(pre.user_account, wagers, funding),
    ensures
        balance_conserved(
            post.user_account,
            wagers.insert(post.wager_detail_key, post.wager_detail),
            funding - (lamports - net_stake(lamports)),
        ),
        wagers_known(post.user_account, wagers.insert(post.wager_detail_key, post.wager_detail)),
{
    let keys = pre.user_account.active_wagers@;
    let k = pre.wager_detail_key;
    let m = wagers.insert(k, post.wager_detail);
    assert forall|i: int| 0 <= i < keys.len() implies keys[i] != k by {
        assert(wagers.contains_key(keys[i]));
    }
    lemma_active_stake_insert(keys, wagers, k, post.wager_detail);
    assert(keys.push(k).drop_last() =~= keys);
    assert forall|i: int| 0 <= i < post.user_account.active_wagers@.len() implies m.contains_key(
        #[trigger] post.user_account.active_wagers@[i],
    ) by {
        if i < keys.len() {
            assert(wagers.contains_key(keys[i]));
        }
    }
}

/// Refunding a wager keeps its user's balance conserved.
pub proof fn cancel_wager_conserves_balance(
    pre: CancelWager,
    post: CancelWager,
    wagers: Map<Pubkey, WagerDetail>,
    funding: int,
)
    requires
        cancel_wager_error(pre) is None,
        wager_cancelled(pre, post),
        wagers.contains_key(pre.wager_detail_key),
        wagers[pre.wager_detail_key] == pre.wager_detail,
        balance_conserved(pre.user_account, wagers, funding),
    ensures
        balance_conserved(post.user_account, wagers, funding),
{
    let keys = pre.user_account.active_wagers@;
    lemma_first_index(keys, pre.wager_detail_key);
    lemma_active_stake_remove(keys, wagers, first_index(keys, pre.wager_detail_key));
}

/// Paying out exactly a wager's stake keeps its user's balance conserved.
pub proof fn claim_winnings_conserves_balance(
    pre: ClaimWinnings,
    post: ClaimWinnings,
    winnings_amount: u64,
    wagers: Map<Pubkey, WagerDetail>,
    funding: int,
)
    requires
        claim_winnings_error(pre, winnings_amount) is None,
        winnings_claimed(pre, post, winnings_amount),
        winnings_amount == pre.wager_detail.bet_value,
        wagers.contains_key(pre.wager_detail_key),
        wagers[pre.wager_detail_key] == pre.wager_detail,
        balance_conserved(pre.user_account, wagers, funding),
    ensures
        balance_conserved(post.user_account, wagers, funding),
{
    let keys = pre.user_account.active_wagers@;
    lemma_first_index(keys, pre.wager_detail_key);
    lemma_active_stake_remove(keys, wagers, first_index(keys, pre.wager_detail_key));
}

/// A deposit adds its amount to what the user has put in; a withdrawal takes
/// its amount off.
pub proof fn deposit_and_withdraw_conserve_balance(
    dep_pre: DepositIntoAccount,
    dep_post: DepositIntoAccount,
    dep_amount: u64,
    wd_pre: WithdrawFromAccount,
    wd_post: WithdrawFromAccount,
    wd_amount: u64,
    wagers: Map<Pubkey, WagerDetail>,
    funding: int,
)
    ensures
        deposited(dep_pre, dep_post, dep_amount) && dep_pre.user_account.current_balance
            + dep_amount <= u64::MAX && balance_conserved(dep_pre.user_account, wagers, funding)
            ==> balance_conserved(dep_post.user_account, wagers, funding + dep_amount),
        withdrawn(wd_pre, wd_post, wd_amount) && wd_amount <= wd_pre.user_account.current_balance
            && balance_conserved(wd_pre.user_account, wagers, funding) ==> balance_conserved(
            wd_post.user_account,
            wagers,
            funding - wd_amount,
        ),
{
}

proof fn lemma_removed_once(s: Seq<Pubkey>, k: Pubkey)
    requires
        s.no_duplicates(),
        s.contains(k),
    ensures
        !s.remove(first_index(s, k)).contains(k),
{
    lemma_first_index(s, k);
    let i = first_index(s, k);
    let r = s.remove(i);
    if r.contains(k) {
        let j = choose|j: int| 0 <= j < r.len() && r[j] == k;
        if j < i {
            assert(s[j] == k);
        } else {
            assert(s[j + 1] == k);
        }
    }
}

/// Placing a wager under an address that the user's active wagers do not
/// hold keeps those addresses distinct.
pub proof fn place_wager_keeps_active_wagers_distinct(
    pre: PlaceWager,
    post: PlaceWager,
    party: u8,
    lamports: u64,
)
    requires
        place_wager_error(pre, party, lamports) is None,
        wager_placed(pre, post, party, lamports),
        pre.user_account.active_wagers@.no_duplicates(),
        !pre.user_account.active_wagers@.contains(pre.wager_detail_key),
    ensures
        post.user_account.active_wagers@.no_duplicates(),
{
    let s = pre.user_account.active_wagers@;
    let t = post.user_account.active_wagers@;
    assert forall|i: int, j: int| 0 <= i < t.len() && 0 <= j < t.len() && i != j implies t[i]
        != t[j] by {
        if i == s.len() {
            assert(s[j] == t[j]);
        } else if j == s.len() {
            assert(s[i] == t[i]);
        }
    }
}

/// A wager cannot be both refunded and paid from one state of its market:
/// a refund needs the market open, a payout needs it closed.
pub proof fn refund_and_payout_exclude_each_other(
    refund: CancelWager,
    payout: ClaimWinnings,
    winnings_amount: u64,
)
    requires
        refund.bet_state == payout.bet_state,
    ensures
        cancel_wager_error(refund) is Some || claim_winnings_error(payout, winnings_amount) is Some,
{
}

/// Once a wager was refunded from a ledger whose active wagers are distinct,
/// neither a second refund nor a payout of it goes through on that ledger.
pub proof fn refunded_wager_settles_no_more(
    pre: CancelWager,
    post: CancelWager,
    refund_again: CancelWager,
    payout: ClaimWinnings,
    winnings_amount: u64,
)
    requires
        cancel_wager_error(pre) is None,
        wager_cancelled(pre, post),
        pre.user_account.active_wagers@.no_duplicates(),
        refund_again.user_account == post.user_account,
        refund_again.wager_detail_key == pre.wager_detail_key,
        payout.user_account == post.user_account,
        payout.wager_detail_key == pre.wager_detail_key,
    ensures
        cancel_wager_error(refund_again) is Some,
        claim_winnings_error(payout, winnings_amount) is Some,
{
    lemma_removed_once(pre.user_account.active_wagers@, pre.wager_detail_key);
}

/// Once a wager was paid from a ledger whose active wagers are distinct,
/// neither a refund nor a second payout of it goes through on that ledger.
pub proof fn paid_wager_settles_no_more(
    pre: ClaimWinnings,
    post: ClaimWinnings,
    winnings_amount: u64,
    refund: CancelWager,
    payout_again: ClaimWinnings,
    again_amount: u64,
)
    requires
        claim_winnings_error(pre, winnings_amount) is None,
        winnings_claimed(pre, post, winnings_amount),
        pre.user_account.active_wagers@.no_duplicates(),
        refund.user_account == post.user_account,
        refund.wager_detail_key == pre.wager_detail_key,
        payout_again.user_account == post.user_account,
        payout_again.wager_detail_key == pre.wager_detail_key,
    ensures
        cancel_wager_error(refund) is Some,
        claim_winnings_error(payout_again, again_amount) is Some,
{
    lemma_removed_once(pre.user_account.active_wagers@, pre.wager_detail_key);
}

} // verus!
