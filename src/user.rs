//! User ledgers: opening one, depositing into and withdrawing from its
//! spendable balance, and closing it once it is empty.
use vstd::prelude::*;
use crate::types::{can_move, move_lamports, ErrorCode, Pubkey, UserAccount};

verus! {

/// The accounts that opening a ledger loads: the fresh record and its owner.
#[derive(Clone, Debug)]
pub struct InitializeUserAccount {
    pub user_account: UserAccount,
    pub account_owner: Pubkey,
}

/// Opens a ledger for its owner with zero balance, zero counters and no
/// active wagers.
pub fn initialize_user_account(ctx: &mut InitializeUserAccount) -> (r: Result<(), ErrorCode>)
    ensures
        r is Ok,
        final(ctx).account_owner == old(ctx).account_owner,
        final(ctx).user_account.account_owner == old(ctx).account_owner,
        final(ctx).user_account.wins == 0,
        final(ctx).user_account.losses == 0,
        final(ctx).user_account.active_wagers@ == Seq::<Pubkey>::empty(),
        final(ctx).user_account.current_balance == 0,
{
    ctx.user_account = UserAccount {
        account_owner: ctx.account_owner,
        wins: 0,
        losses: 0,
        active_wagers: Vec::new(),
        current_balance: 0,
    };
    Ok(())
}

/// The accounts that closing a ledger loads.
#[derive(Clone, Debug)]
pub struct CloseUserAccount {
    pub user_account: UserAccount,
    pub account_owner: Pubkey,
}

/// The error that closing the ledger meets first, if any.
pub open spec fn close_user_account_error(ctx: CloseUserAccount) -> Option<ErrorCode> {
    if ctx.user_account.account_owner != ctx.account_owner {
        Some(ErrorCode::InvalidAccountOwner)
    } else if ctx.user_account.current_balance != 0 {
        Some(ErrorCode::AccountBalanceNotEmpty)
    } else {
        None
    }
}

/// Checks that its owner may close a ledger with nothing left to spend; the
/// record is to be destroyed after success.
pub fn close_user_account(ctx: &CloseUserAccount) -> (r: Result<(), ErrorCode>)
    ensures
        match close_user_account_error(*ctx) {
            Some(e) => r == Err::<(), ErrorCode>(e),
            None => r is Ok,
        },
{
    if ctx.user_account.account_owner != ctx.account_owner {
        return Err(ErrorCode::InvalidAccountOwner);
    }
    if ctx.user_account.current_balance != 0 {
        return Err(ErrorCode::AccountBalanceNotEmpty);
    }
    Ok(())
}

/// The accounts that a deposit loads.
#[derive(Clone, Debug)]
pub struct DepositIntoAccount {
    pub user_account: UserAccount,
    pub account_owner: Pubkey,
}

/// The error that depositing `lamports` meets first, if any.
pub open spec fn deposit_error(ctx: DepositIntoAccount, lamports: u64) -> Option<ErrorCode> {
    if ctx.user_account.account_owner != ctx.account_owner {
        Some(ErrorCode::InvalidAccountOwner)
    } else if ctx.user_account.current_balance + lamports > u64::MAX {
        Some(ErrorCode::InvalidArgument)
    } else {
        None
    }
}

/// `post` is `pre` after `lamports` were added to the ledger's balance.
pub open spec fn deposited(pre: DepositIntoAccount, post: DepositIntoAccount, lamports: u64) -> bool {
    &&& post.account_owner == pre.account_owner
    &&& post.user_account == (UserAccount {
        current_balance: (pre.user_account.current_balance + lamports) as u64,
        ..pre.user_account
    })
}

/// Adds `lamports` to the ledger's spendable balance.
pub fn deposit_into_account(ctx: &mut DepositIntoAccount, lamports: u64) -> (r: Result<
    (),
    ErrorCode,
>)
    ensures
        match deposit_error(*old(ctx), lamports) {
            Some(e) => r == Err::<(), ErrorCode>(e) && *final(ctx) == *old(ctx),
            None => r is Ok && deposited(*old(ctx), *final(ctx), lamports),
        },
{
    if ctx.user_account.account_owner != ctx.account_owner {
        return Err(ErrorCode::InvalidAccountOwner);
    }
    match ctx.user_account.current_balance.checked_add(lamports) {
        Some(b) => {
            ctx.user_account.current_balance = b;
            Ok(())
        },
        None => Err(ErrorCode::InvalidArgument),
    }
}

/// The accounts that a withdrawal loads, with the lamports that the ledger
/// and its owner hold.
#[derive(Clone, Debug)]
pub struct WithdrawFromAccount {
    pub user_account: UserAccount,
    pub user_account_lamports: u64,
    pub account_owner: Pubkey,
    pub account_owner_lamports: u64,
}

/// The error that withdrawing `lamports` meets first, if any.
pub open spec fn withdraw_error(ctx: WithdrawFromAccount, lamports: u64) -> Option<ErrorCode> {
    if ctx.user_account.account_owner != ctx.account_owner {
        Some(ErrorCode::InvalidAccountOwner)
    } else if ctx.user_account.current_balance == 0 {
        Some(ErrorCode::CannotWithdrawFromEmptyAccount)
    } else if lamports > ctx.user_account.current_balance {
        Some(ErrorCode::InvalidWithdrawalAmount)
    } else if !can_move(ctx.user_account_lamports, ctx.account_owner_lamports, lamports) {
        Some(ErrorCode::InvalidArgument)
    } else {
        None
    }
}

/// `post` is `pre` after `lamports` were withdrawn to the owner.
pub open spec fn withdrawn(pre: WithdrawFromAccount, post: WithdrawFromAccount, lamports: u64) -> bool {
    &&& post.user_account == (UserAccount {
        current_balance: (pre.user_account.current_balance - lamports) as u64,
        ..pre.user_account
    })
    &&& post.user_account_lamports == pre.user_account_lamports - lamports
    &&& post.account_owner == pre.account_owner
    &&& post.account_owner_lamports == pre.account_owner_lamports + lamports
}

/// Takes `lamports` out of the ledger's spendable balance and moves them
/// from the ledger's account to its owner.
pub fn withdraw_from_account(ctx: &mut WithdrawFromAccount, lamports: u64) -> (r: Result<
    (),
    ErrorCode,
>)
    ensures
        match withdraw_error(*old(ctx), lamports) {
            Some(e) => r == Err::<(), ErrorCode>(e) && *final(ctx) == *old(ctx),
            None => r is Ok && withdrawn(*old(ctx), *final(ctx), lamports),
        },
        lamports > old(ctx).user_account.current_balance ==> r is Err && *final(ctx) == *old(
            ctx,
        ),
{
    if ctx.user_account.account_owner != ctx.account_owner {
        return Err(ErrorCode::InvalidAccountOwner);
    }
    if ctx.user_account.current_balance == 0 {
        return Err(ErrorCode::CannotWithdrawFromEmptyAccount);
    }
    let balance = match ctx.user_account.current_balance.checked_sub(lamports) {
        Some(b) => b,
        None => return Err(ErrorCode::InvalidWithdrawalAmount),
    };
    let (from, to) = match move_lamports(
        ctx.user_account_lamports,
        ctx.account_owner_lamports,
        lamports,
    ) {
        Some(p) => p,
        None => return Err(ErrorCode::InvalidArgument),
    };
    ctx.user_account.current_balance = balance;
    ctx.user_account_lamports = from;
    ctx.account_owner_lamports = to;
    Ok(())
}

} // verus!
