//! A two-outcome wagering engine: markets, wagers and user ledgers, with each
//! instruction an all-or-nothing transition over the records it loads.
pub mod laws;
pub mod market;
pub mod stake;
pub mod types;
pub mod user;
pub mod wager;

pub use market::{
    cancel_bet_state, close_bet_state, decide_bet_state_outcome, initialize_bet_state,
    settle_bet_state, CancelBetState, CloseBetState, DecideBetState, InitializeBetState,
    SettleBetState,
};
pub use stake::{split_take_rate, TAKE_RATE_PERCENT};
pub use types::{
    BetOutcomeStatus, BetRange, BetState, BetStateStatus, ErrorCode, PartyStatus, Pubkey,
    UserAccount, WagerDetail,
};
pub use user::{
    close_user_account, deposit_into_account, initialize_user_account, withdraw_from_account,
    CloseUserAccount, DepositIntoAccount, InitializeUserAccount, WithdrawFromAccount,
};
pub use wager::{cancel_wager, claim_winnings, place_wager, CancelWager, ClaimWinnings, PlaceWager};
