//! Records kept by the betting program and the errors its instructions report.
use vstd::prelude::*;

verus! {

/// Address of an account, held as four little-endian 64-bit words of its
/// 32 bytes.
#[derive(Clone, Copy, Debug, PartialEq, Eq, Structural)]
pub struct Pubkey(pub u64, pub u64, pub u64, pub u64);

/// Which side, if any, a market was decided for.
#[derive(Clone, Copy, Debug, PartialEq, Eq, Structural)]
pub enum BetOutcomeStatus {
    Undecided,
    PartyOneWin,
    PartyTwoWin,
}

/// The side a wager backs.
#[derive(Clone, Copy, Debug, PartialEq, Eq, Structural)]
pub enum PartyStatus {
    PartyOne,
    PartyTwo,
}

/// Stage of a market's life: it only ever moves forward.
#[derive(Clone, Copy, Debug, PartialEq, Eq, Structural)]
pub enum BetStateStatus {
    Open,
    Closed,
    Settled,
}

/// The price-movement bucket that a market is about.
#[derive(Clone, Copy, Debug, PartialEq, Eq, Structural)]
pub enum BetRange {
    NegativeThreeAndOver,
    NegativeTwoToThree,
    NegativeOneToTwo,
    NegativeOneToZero,
    ZeroToPositiveOne,
    PositiveOneToTwo,
    PositiveTwoToThree,
    PositiveThreeAndOver,
}

/// A market: one two-sided proposition with its pooled stakes.
#[derive(Clone, Debug, PartialEq, Eq)]
pub struct BetState {
    pub symbol: String,
    pub creator: Pubkey,
    pub running_total_pool: u64,
    pub static_total_pool: u64,
    pub party_one_pool: u64,
    pub party_two_pool: u64,
    pub start_price: u64,
    pub bet_outcome: BetOutcomeStatus,
    pub status: BetStateStatus,
    pub start_time: u64,
    pub end_time: u64,
    pub snapshot_price: u128,
    pub bet_range: BetRange,
}

/// One user's stake on one side of a market.
#[derive(Clone, Copy, Debug, PartialEq, Eq, Structural)]
pub struct WagerDetail {
    pub bettor: Pubkey,
    pub bet_state: Pubkey,
    pub party: PartyStatus,
    pub bet_value: u64,
}

/// A user's spendable balance and the addresses of the wagers they hold open.
#[derive(Clone, Debug, PartialEq, Eq)]
pub struct UserAccount {
    pub account_owner: Pubkey,
    pub wins: u64,
    pub losses: u64,
    pub active_wagers: Vec<Pubkey>,
    pub current_balance: u64,
}

/// Why an instruction was rejected. A rejected instruction changes nothing.
#[derive(Clone, Copy, Debug, PartialEq, Eq, Structural)]
pub enum ErrorCode {
    InvalidBetCreator,
    InvalidParty,
    InvalidBetOutcome,
    InvalidBetRange,
    NonWinningParty,
    FundsStillInPlay,
    BetStillOpen,
    BetStillUndecided,
    BetAlreadyDecided,
    NotBetCreator,
    BetIsClosedOrSettled,
    NotAccountOwnerToPlaceWager,
    NotAccountOwnerToClaimWinnings,
    ActiveWagerNotFound,
    ActiveWagersEmpty,
    InvalidAccountOwner,
    AccountBalanceNotEmpty,
    InvalidDepositAmount,
    InvalidWithdrawalAmount,
    CannotWithdrawFromEmptyAccount,
    /// An account constraint without an error of its own failed.
    ConstraintRaw,
    /// A record does not point at the account it must belong to.
    ConstraintHasOne,
    /// A pool, balance or lamport amount would leave the range of `u64`.
    InvalidArgument,
}

/// Rank of a stage in the order Open, Closed, Settled.
pub open spec fn status_rank(s: BetStateStatus) -> int {
    match s {
        BetStateStatus::Open => 0,
        BetStateStatus::Closed => 1,
        BetStateStatus::Settled => 2,
    }
}

/// A market's stage did not move back, and a decided outcome stayed as it was.
pub open spec fn lifecycle_advances(pre: BetState, post: BetState) -> bool {
    &&& status_rank(pre.status) <= status_rank(post.status)
    &&& pre.bet_outcome != BetOutcomeStatus::Undecided ==> post.bet_outcome == pre.bet_outcome
}

/// Both sides' pools add up to the market's total of accepted stakes.
pub open spec fn pools_balanced(m: BetState) -> bool {
    m.party_one_pool + m.party_two_pool == m.static_total_pool
}

/// Moving `amount` lamports between two accounts keeps both within `u64`.
pub open spec fn can_move(from: u64, to: u64, amount: u64) -> bool {
    amount <= from && to + amount <= u64::MAX
}

/// Moves `amount` lamports from one account's balance to another's, failing
/// when the source holds too little or the target would overflow.
pub fn move_lamports(from: u64, to: u64, amount: u64) -> (r: Option<(u64, u64)>)
    ensures
        r is Some <==> can_move(from, to, amount),
        r matches Some(p) ==> p.0 == from - amount && p.1 == to + amount,
{
    match from.checked_sub(amount) {
        None => None,
        Some(f) => match to.checked_add(amount) {
            None => None,
            Some(t) => Some((f, t)),
        },
    }
}

} // verus!
