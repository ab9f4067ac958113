use juicy_bets::{
    cancel_bet_state, cancel_wager, claim_winnings, close_bet_state, decide_bet_state_outcome,
    initialize_bet_state, place_wager, settle_bet_state, split_take_rate, BetOutcomeStatus,
    BetRange, BetState, BetStateStatus, CancelBetState, CancelWager, ClaimWinnings,
    CloseBetState, DecideBetState, ErrorCode, InitializeBetState, PartyStatus, PlaceWager,
    Pubkey, SettleBetState, UserAccount, WagerDetail,
};

fn key(n: u64) -> Pubkey {
    Pubkey(n, 0, 0, 0)
}

const CREATOR: u64 = 1;
const MARKET: u64 = 2;

fn blank_market() -> BetState {
    BetState {
        symbol: String::new(),
        creator: key(0),
        running_total_pool: 0,
        static_total_pool: 0,
        party_one_pool: 0,
        party_two_pool: 0,
        start_price: 0,
        bet_outcome: BetOutcomeStatus::Undecided,
        status: BetStateStatus::Open,
        start_time: 0,
        end_time: 0,
        snapshot_price: 0,
        bet_range: BetRange::NegativeThreeAndOver,
    }
}

fn blank_wager() -> WagerDetail {
    WagerDetail { bettor: key(0), bet_state: key(0), party: PartyStatus::PartyOne, bet_value: 0 }
}

fn new_market(duration: u64) -> BetState {
    let mut ctx = InitializeBetState { bet_state: blank_market(), bet_creator: key(CREATOR) };
    initialize_bet_state(&mut ctx, 1_000, duration, "SOL".to_string(), 25_000_000, 4).unwrap();
    ctx.bet_state
}

fn ledger(owner: u64, balance: u64) -> UserAccount {
    UserAccount {
        account_owner: key(owner),
        wins: 0,
        losses: 0,
        active_wagers: Vec::new(),
        current_balance: balance,
    }
}

struct Placed {
    market: BetState,
    market_lamports: u64,
    wager: WagerDetail,
    user: UserAccount,
    user_lamports: u64,
}

fn place(
    market: BetState,
    market_lamports: u64,
    user: UserAccount,
    user_lamports: u64,
    wager_key: u64,
    party: u8,
    gross: u64,
) -> Result<Placed, ErrorCode> {
    let bettor = user.account_owner;
    let mut ctx = PlaceWager {
        bet_state: market,
        bet_state_key: key(MARKET),
        bet_state_lamports: market_lamports,
        wager_detail: blank_wager(),
        wager_detail_key: key(wager_key),
        user_account: user,
        user_account_lamports: user_lamports,
        bettor_account: bettor,
    };
    place_wager(&mut ctx, party, gross)?;
    Ok(Placed {
        market: ctx.bet_state,
        market_lamports: ctx.bet_state_lamports,
        wager: ctx.wager_detail,
        user: ctx.user_account,
        user_lamports: ctx.user_account_lamports,
    })
}

fn closed_and_decided(market: BetState, outcome: u8) -> BetState {
    let mut close = CloseBetState { bet_state: market, bet_creator: key(CREATOR) };
    close_bet_state(&mut close, 5_000).unwrap();
    let mut decide = DecideBetState { bet_state: close.bet_state, bet_creator: key(CREATOR) };
    decide_bet_state_outcome(&mut decide, outcome).unwrap();
    decide.bet_state
}

#[test]
fn wager_of_gross_amount_credits_net_stake() {
    let market = new_market(3600);
    assert_eq!(market.end_time, 1_000 + 3600);
    let p = place(market, 0, ledger(10, 2_000_000), 2_000_000, 100, 1, 1_020_000).unwrap();
    assert_eq!(p.market.party_one_pool, 1_000_000);
    assert_eq!(p.market.party_two_pool, 0);
    assert_eq!(p.market.static_total_pool, 1_000_000);
    assert_eq!(p.market.running_total_pool, 1_000_000);
    assert_eq!(p.wager.bet_value, 1_000_000);
    assert_eq!(p.wager.party, PartyStatus::PartyOne);
    assert_eq!(p.wager.bettor, key(10));
    assert_eq!(p.wager.bet_state, key(MARKET));
    assert_eq!(p.user.current_balance, 2_000_000 - 1_020_000);
    assert_eq!(p.user.active_wagers, vec![key(100)]);
    assert_eq!(p.user_lamports, 1_000_000);
    assert_eq!(p.market_lamports, 1_000_000);
    assert_eq!(split_take_rate(1_020_000), (1_000_000, 20_000));
}

#[test]
fn cancelling_one_of_two_opposite_wagers() {
    let market = new_market(3600);
    let a = place(market, 0, ledger(10, 1_000_000), 1_000_000, 100, 1, 510_000).unwrap();
    let b = place(a.market, a.market_lamports, ledger(11, 1_000_000), 1_000_000, 101, 2, 510_000)
        .unwrap();
    assert_eq!(a.wager.bet_value, 500_000);
    assert_eq!(b.wager.bet_value, 500_000);
    assert_eq!(b.market.running_total_pool, 1_000_000);
    let mut ctx = CancelWager {
        bet_state: b.market.clone(),
        bet_state_lamports: b.market_lamports,
        wager_detail: a.wager,
        wager_detail_key: key(100),
        user_account: a.user.clone(),
        user_account_lamports: a.user_lamports,
        bettor: key(10),
    };
    cancel_wager(&mut ctx).unwrap();
    assert_eq!(ctx.bet_state.running_total_pool, b.market.running_total_pool - a.wager.bet_value);
    assert_eq!(ctx.bet_state.static_total_pool, 500_000);
    assert_eq!(ctx.bet_state.party_one_pool, 0);
    assert_eq!(ctx.bet_state.party_two_pool, b.market.party_two_pool);
    assert_eq!(ctx.user_account.current_balance, 1_000_000 - 510_000 + 500_000);
    assert!(ctx.user_account.active_wagers.is_empty());
    assert_eq!(ctx.bet_state_lamports, 500_000);
    assert_eq!(ctx.user_account_lamports, 1_000_000);
}

#[test]
fn claim_on_losing_side_is_rejected() {
    let market = new_market(3600);
    let a = place(market, 0, ledger(10, 1_000_000), 1_000_000, 100, 2, 510_000).unwrap();
    let decided = closed_and_decided(a.market, 1);
    let mut ctx = ClaimWinnings {
        bet_state: decided,
        bet_state_key: key(MARKET),
        bet_state_lamports: a.market_lamports,
        wager_detail: a.wager,
        wager_detail_key: key(100),
        user_account: a.user.clone(),
        user_account_lamports: a.user_lamports,
        bettor: key(10),
    };
    let before = ctx.clone();
    assert_eq!(claim_winnings(&mut ctx, 500_000), Err(ErrorCode::NonWinningParty));
    assert_eq!(ctx.user_account, before.user_account);
    assert_eq!(ctx.user_account.current_balance, 490_000);
    assert_eq!(ctx.bet_state, before.bet_state);
    assert_eq!(ctx.user_account_lamports, before.user_account_lamports);
}

#[test]
fn settle_with_funds_in_play_is_rejected() {
    let market = new_market(3600);
    let a = place(market, 0, ledger(10, 1_000_000), 1_000_000, 100, 1, 510_000).unwrap();
    let decided = closed_and_decided(a.market, 1);
    let mut ctx = SettleBetState { bet_state: decided.clone(), bet_creator: key(CREATOR) };
    assert_eq!(settle_bet_state(&mut ctx), Err(ErrorCode::FundsStillInPlay));
    assert_eq!(ctx.bet_state, decided);
}

#[test]
fn full_life_of_a_market() {
    let market = new_market(60);
    let a = place(market, 0, ledger(10, 1_000_000), 1_000_000, 100, 1, 510_000).unwrap();
    let decided = closed_and_decided(a.market, 1);
    assert_eq!(decided.status, BetStateStatus::Closed);
    assert_eq!(decided.end_time, 5_000);
    assert_eq!(decided.bet_outcome, BetOutcomeStatus::PartyOneWin);
    let mut claim = ClaimWinnings {
        bet_state: decided,
        bet_state_key: key(MARKET),
        bet_state_lamports: a.market_lamports,
        wager_detail: a.wager,
        wager_detail_key: key(100),
        user_account: a.user.clone(),
        user_account_lamports: a.user_lamports,
        bettor: key(10),
    };
    claim_winnings(&mut claim, 500_000).unwrap();
    assert_eq!(claim.bet_state.running_total_pool, 0);
    assert_eq!(claim.bet_state.static_total_pool, 500_000);
    assert_eq!(claim.user_account.current_balance, 490_000 + 500_000);
    assert!(claim.user_account.active_wagers.is_empty());
    assert_eq!(claim.bet_state_lamports, 0);
    assert_eq!(claim.user_account_lamports, 1_000_000);
    // the same wager cannot be paid twice
    let mut again = claim.clone();
    assert_eq!(claim_winnings(&mut again, 0), Err(ErrorCode::ActiveWagersEmpty));
    let mut settle = SettleBetState { bet_state: claim.bet_state, bet_creator: key(CREATOR) };
    settle_bet_state(&mut settle).unwrap();
    assert_eq!(settle.bet_state.status, BetStateStatus::Settled);
    assert_eq!(settle.bet_state.bet_outcome, BetOutcomeStatus::PartyOneWin);
}

#[test]
fn new_market_fields() {
    let m = new_market(3600);
    assert_eq!(m.symbol, "SOL");
    assert_eq!(m.creator, key(CREATOR));
    assert_eq!(m.status, BetStateStatus::Open);
    assert_eq!(m.bet_outcome, BetOutcomeStatus::Undecided);
    assert_eq!(m.start_time, 1_000);
    assert_eq!(m.snapshot_price, 25_000_000);
    assert_eq!(m.bet_range, BetRange::ZeroToPositiveOne);
    assert_eq!(m.static_total_pool + m.running_total_pool, 0);
}

#[test]
fn every_range_code_and_an_invalid_one() {
    let expected = [
        BetRange::NegativeThreeAndOver,
        BetRange::NegativeTwoToThree,
        BetRange::NegativeOneToTwo,
        BetRange::NegativeOneToZero,
        BetRange::ZeroToPositiveOne,
        BetRange::PositiveOneToTwo,
        BetRange::PositiveTwoToThree,
        BetRange::PositiveThreeAndOver,
    ];
    for (code, range) in expected.iter().enumerate() {
        let mut ctx = InitializeBetState { bet_state: blank_market(), bet_creator: key(CREATOR) };
        initialize_bet_state(&mut ctx, 0, 1, "BTC".to_string(), 1, code as u8).unwrap();
        assert_eq!(ctx.bet_state.bet_range, *range);
    }
    let mut ctx = InitializeBetState { bet_state: blank_market(), bet_creator: key(CREATOR) };
    assert_eq!(
        initialize_bet_state(&mut ctx, 0, 1, "BTC".to_string(), 1, 8),
        Err(ErrorCode::InvalidBetRange)
    );
    assert_eq!(ctx.bet_state, blank_market());
}

#[test]
fn market_end_time_overflow_is_rejected() {
    let mut ctx = InitializeBetState { bet_state: blank_market(), bet_creator: key(CREATOR) };
    assert_eq!(
        initialize_bet_state(&mut ctx, u64::MAX, 1, "BTC".to_string(), 1, 0),
        Err(ErrorCode::InvalidArgument)
    );
}

#[test]
fn place_wager_guards() {
    let open = new_market(60);
    assert_eq!(
        place(open.clone(), 0, ledger(10, 1_000), 1_000, 100, 3, 102).err(),
        Some(ErrorCode::InvalidParty)
    );
    assert_eq!(
        place(open.clone(), 0, ledger(10, 100), 1_000, 100, 1, 102).err(),
        Some(ErrorCode::InvalidArgument)
    );
    assert_eq!(
        place(open.clone(), 0, ledger(10, 1_000), 50, 100, 1, 102).err(),
        Some(ErrorCode::InvalidArgument)
    );
    let mut ctx = PlaceWager {
        bet_state: open.clone(),
        bet_state_key: key(MARKET),
        bet_state_lamports: 0,
        wager_detail: blank_wager(),
        wager_detail_key: key(100),
        user_account: ledger(10, 1_000),
        user_account_lamports: 1_000,
        bettor_account: key(11),
    };
    assert_eq!(place_wager(&mut ctx, 1, 102), Err(ErrorCode::NotAccountOwnerToPlaceWager));
    let mut closed = open.clone();
    closed.status = BetStateStatus::Closed;
    assert_eq!(
        place(closed, 0, ledger(10, 1_000), 1_000, 100, 1, 102).err(),
        Some(ErrorCode::BetIsClosedOrSettled)
    );
    let mut decided = open.clone();
    decided.bet_outcome = BetOutcomeStatus::PartyTwoWin;
    assert_eq!(
        place(decided, 0, ledger(10, 1_000), 1_000, 100, 2, 102).err(),
        Some(ErrorCode::BetAlreadyDecided)
    );
}

#[test]
fn take_rate_split_values() {
    assert_eq!(split_take_rate(0), (0, 0));
    assert_eq!(split_take_rate(1), (0, 1));
    assert_eq!(split_take_rate(102), (100, 2));
    assert_eq!(split_take_rate(1_000), (980, 20));
    assert_eq!(split_take_rate(u64::MAX), (18_085_043_209_519_168_250, 361_700_864_190_383_365));
}

fn cancel_ctx(market: BetState, wager: WagerDetail, user: UserAccount) -> CancelWager {
    CancelWager {
        bet_state: market,
        bet_state_lamports: 1_000_000,
        wager_detail: wager,
        wager_detail_key: key(100),
        user_account: user,
        user_account_lamports: 0,
        bettor: key(10),
    }
}

#[test]
fn cancel_wager_guards() {
    let a = place(new_market(60), 0, ledger(10, 1_000), 1_000, 100, 1, 510).unwrap();
    let mut c = cancel_ctx(a.market.clone(), a.wager, a.user.clone());
    c.bettor = key(12);
    assert_eq!(cancel_wager(&mut c), Err(ErrorCode::ConstraintRaw));
    let mut stranger = a.wager;
    stranger.bettor = key(12);
    let mut c = cancel_ctx(a.market.clone(), stranger, a.user.clone());
    c.bettor = key(12);
    assert_eq!(cancel_wager(&mut c), Err(ErrorCode::NotAccountOwnerToPlaceWager));
    let mut c = cancel_ctx(a.market.clone(), a.wager, ledger(10, 0));
    assert_eq!(cancel_wager(&mut c), Err(ErrorCode::ActiveWagersEmpty));
    let mut other = ledger(10, 0);
    other.active_wagers.push(key(999));
    let mut c = cancel_ctx(a.market.clone(), a.wager, other);
    let before = c.clone();
    assert_eq!(cancel_wager(&mut c), Err(ErrorCode::ActiveWagerNotFound));
    assert_eq!(c.bet_state, before.bet_state);
    assert_eq!(c.user_account, before.user_account);
    let mut big = a.wager;
    big.bet_value = a.market.static_total_pool + 1;
    let mut c = cancel_ctx(a.market.clone(), big, a.user.clone());
    let before = c.clone();
    assert_eq!(cancel_wager(&mut c), Err(ErrorCode::InvalidArgument));
    assert_eq!(c.bet_state, before.bet_state);
    assert_eq!(c.user_account, before.user_account);
    let mut closed = a.market.clone();
    closed.status = BetStateStatus::Closed;
    let mut c = cancel_ctx(closed, a.wager, a.user.clone());
    assert_eq!(cancel_wager(&mut c), Err(ErrorCode::BetIsClosedOrSettled));
    let mut decided = a.market.clone();
    decided.bet_outcome = BetOutcomeStatus::PartyOneWin;
    let mut c = cancel_ctx(decided, a.wager, a.user.clone());
    assert_eq!(cancel_wager(&mut c), Err(ErrorCode::BetAlreadyDecided));
}

#[test]
fn cancel_removes_only_the_first_matching_entry() {
    let a = place(new_market(60), 0, ledger(10, 1_000), 1_000, 100, 1, 510).unwrap();
    let mut user = a.user.clone();
    user.active_wagers = vec![key(7), key(100), key(8)];
    let mut c = cancel_ctx(a.market.clone(), a.wager, user);
    cancel_wager(&mut c).unwrap();
    assert_eq!(c.user_account.active_wagers, vec![key(7), key(8)]);
}

fn claim_ctx(market: BetState, wager: WagerDetail, user: UserAccount) -> ClaimWinnings {
    ClaimWinnings {
        bet_state: market,
        bet_state_key: key(MARKET),
        bet_state_lamports: 1_000,
        wager_detail: wager,
        wager_detail_key: key(100),
        user_account: user,
        user_account_lamports: 0,
        bettor: key(10),
    }
}

#[test]
fn claim_winnings_guards() {
    let a = place(new_market(60), 0, ledger(10, 1_000), 1_000, 100, 1, 510).unwrap();
    let mut c = claim_ctx(a.market.clone(), a.wager, a.user.clone());
    assert_eq!(claim_winnings(&mut c, 1), Err(ErrorCode::BetStillOpen));
    let mut closed = a.market.clone();
    closed.status = BetStateStatus::Closed;
    let mut c = claim_ctx(closed, a.wager, a.user.clone());
    assert_eq!(claim_winnings(&mut c, 1), Err(ErrorCode::BetStillUndecided));
    let decided = closed_and_decided(a.market.clone(), 1);
    let mut c = claim_ctx(decided.clone(), a.wager, a.user.clone());
    c.bet_state_key = key(3);
    assert_eq!(claim_winnings(&mut c, 1), Err(ErrorCode::ConstraintHasOne));
    let mut c = claim_ctx(decided.clone(), a.wager, a.user.clone());
    c.bettor = key(12);
    assert_eq!(claim_winnings(&mut c, 1), Err(ErrorCode::ConstraintHasOne));
    let mut c = claim_ctx(decided.clone(), a.wager, ledger(12, 0));
    assert_eq!(claim_winnings(&mut c, 1), Err(ErrorCode::NotAccountOwnerToClaimWinnings));
    let mut c = claim_ctx(decided.clone(), a.wager, ledger(10, 0));
    assert_eq!(claim_winnings(&mut c, 1), Err(ErrorCode::ActiveWagersEmpty));
    let mut other = ledger(10, 0);
    other.active_wagers.push(key(999));
    let mut c = claim_ctx(decided.clone(), a.wager, other);
    assert_eq!(claim_winnings(&mut c, 1), Err(ErrorCode::ActiveWagerNotFound));
    let mut c = claim_ctx(decided.clone(), a.wager, a.user.clone());
    let before = c.clone();
    assert_eq!(
        claim_winnings(&mut c, decided.running_total_pool + 1),
        Err(ErrorCode::InvalidArgument)
    );
    assert_eq!(c.bet_state, before.bet_state);
    assert_eq!(c.user_account, before.user_account);
    let mut c = claim_ctx(decided.clone(), a.wager, a.user.clone());
    c.bet_state_lamports = 0;
    assert_eq!(claim_winnings(&mut c, 1), Err(ErrorCode::InvalidArgument));
}

#[test]
fn close_and_decide_guards() {
    let open = new_market(60);
    let mut c = CloseBetState { bet_state: open.clone(), bet_creator: key(9) };
    assert_eq!(close_bet_state(&mut c, 7), Err(ErrorCode::NotBetCreator));
    let mut d = DecideBetState { bet_state: open.clone(), bet_creator: key(CREATOR) };
    assert_eq!(decide_bet_state_outcome(&mut d, 1), Err(ErrorCode::BetStillOpen));
    let mut c = CloseBetState { bet_state: open.clone(), bet_creator: key(CREATOR) };
    close_bet_state(&mut c, 7).unwrap();
    assert_eq!(c.bet_state.end_time, 7);
    assert_eq!(close_bet_state(&mut c, 8), Err(ErrorCode::BetIsClosedOrSettled));
    let mut d = DecideBetState { bet_state: c.bet_state.clone(), bet_creator: key(9) };
    assert_eq!(decide_bet_state_outcome(&mut d, 1), Err(ErrorCode::NotBetCreator));
    let mut d = DecideBetState { bet_state: c.bet_state.clone(), bet_creator: key(CREATOR) };
    assert_eq!(decide_bet_state_outcome(&mut d, 0), Err(ErrorCode::InvalidBetOutcome));
    assert_eq!(decide_bet_state_outcome(&mut d, 3), Err(ErrorCode::InvalidBetOutcome));
    assert_eq!(d.bet_state.bet_outcome, BetOutcomeStatus::Undecided);
    decide_bet_state_outcome(&mut d, 2).unwrap();
    assert_eq!(d.bet_state.bet_outcome, BetOutcomeStatus::PartyTwoWin);
    assert_eq!(decide_bet_state_outcome(&mut d, 1), Err(ErrorCode::BetAlreadyDecided));
    assert_eq!(d.bet_state.bet_outcome, BetOutcomeStatus::PartyTwoWin);
    let mut open_decided = open.clone();
    open_decided.bet_outcome = BetOutcomeStatus::PartyOneWin;
    let mut c = CloseBetState { bet_state: open_decided, bet_creator: key(CREATOR) };
    assert_eq!(close_bet_state(&mut c, 7), Err(ErrorCode::BetAlreadyDecided));
}

#[test]
fn cancel_market_guards() {
    let open = new_market(60);
    assert_eq!(cancel_bet_state(&CancelBetState { bet_state: open.clone(), bettor: key(CREATOR) }), Ok(()));
    assert_eq!(
        cancel_bet_state(&CancelBetState { bet_state: open.clone(), bettor: key(9) }),
        Err(ErrorCode::NotBetCreator)
    );
    let a = place(open.clone(), 0, ledger(10, 1_000), 1_000, 100, 1, 510).unwrap();
    assert_eq!(
        cancel_bet_state(&CancelBetState { bet_state: a.market.clone(), bettor: key(CREATOR) }),
        Err(ErrorCode::FundsStillInPlay)
    );
    let mut closed = open.clone();
    closed.status = BetStateStatus::Closed;
    assert_eq!(
        cancel_bet_state(&CancelBetState { bet_state: closed, bettor: key(CREATOR) }),
        Err(ErrorCode::BetIsClosedOrSettled)
    );
    let mut decided = open.clone();
    decided.bet_outcome = BetOutcomeStatus::PartyTwoWin;
    assert_eq!(
        cancel_bet_state(&CancelBetState { bet_state: decided, bettor: key(CREATOR) }),
        Err(ErrorCode::BetAlreadyDecided)
    );
}

#[test]
fn settle_guards() {
    let open = new_market(60);
    let mut s = SettleBetState { bet_state: open.clone(), bet_creator: key(CREATOR) };
    assert_eq!(settle_bet_state(&mut s), Err(ErrorCode::BetStillOpen));
    let mut closed = open.clone();
    closed.status = BetStateStatus::Closed;
    let mut s = SettleBetState { bet_state: closed, bet_creator: key(CREATOR) };
    assert_eq!(settle_bet_state(&mut s), Err(ErrorCode::BetStillUndecided));
    let decided = closed_and_decided(open, 2);
    let mut s = SettleBetState { bet_state: decided, bet_creator: key(9) };
    assert_eq!(settle_bet_state(&mut s), Err(ErrorCode::NotBetCreator));
    assert_eq!(s.bet_state.status, BetStateStatus::Closed);
}

#[test]
fn pools_track_live_wagers() {
    let market = new_market(60);
    let a = place(market, 0, ledger(10, 5_000), 5_000, 100, 1, 1_020).unwrap();
    let b = place(a.market, a.market_lamports, ledger(11, 5_000), 5_000, 101, 1, 2_040).unwrap();
    let c = place(b.market, b.market_lamports, ledger(12, 5_000), 5_000, 102, 2, 510).unwrap();
    let m = &c.market;
    assert_eq!(m.party_one_pool + m.party_two_pool, m.static_total_pool);
    assert_eq!(m.running_total_pool, a.wager.bet_value + b.wager.bet_value + c.wager.bet_value);
    assert_eq!((m.party_one_pool, m.party_two_pool), (3_000, 500));
    let mut ctx = CancelWager {
        bet_state: c.market.clone(),
        bet_state_lamports: c.market_lamports,
        wager_detail: b.wager,
        wager_detail_key: key(101),
        user_account: b.user.clone(),
        user_account_lamports: b.user_lamports,
        bettor: key(11),
    };
    cancel_wager(&mut ctx).unwrap();
    let m = &ctx.bet_state;
    assert_eq!(m.party_one_pool + m.party_two_pool, m.static_total_pool);
    assert_eq!(m.running_total_pool, a.wager.bet_value + c.wager.bet_value);
    assert_eq!(ctx.bet_state_lamports, m.running_total_pool);
}

#[test]
fn balance_plus_stakes_equals_funding_less_fees() {
    let deposited: u64 = 2_000_000;
    let a = place(new_market(60), 0, ledger(10, deposited), deposited, 100, 1, 1_020_000).unwrap();
    let b = place(a.market, a.market_lamports, a.user, a.user_lamports, 101, 2, 510_000).unwrap();
    let fees = (1_020_000 - a.wager.bet_value) + (510_000 - b.wager.bet_value);
    assert_eq!(fees, 30_000);
    assert_eq!(
        b.user.current_balance + a.wager.bet_value + b.wager.bet_value,
        deposited - fees
    );
    let mut ctx = CancelWager {
        bet_state: b.market.clone(),
        bet_state_lamports: b.market_lamports,
        wager_detail: a.wager,
        wager_detail_key: key(100),
        user_account: b.user.clone(),
        user_account_lamports: b.user_lamports,
        bettor: key(10),
    };
    cancel_wager(&mut ctx).unwrap();
    assert_eq!(ctx.user_account.active_wagers, vec![key(101)]);
    assert_eq!(ctx.user_account.current_balance + b.wager.bet_value, deposited - fees);
}
