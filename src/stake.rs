//! Pool arithmetic shared by the wager instructions: the take-rate split and
//! moving a stake into or out of a market's pools.
use vstd::prelude::*;
use crate::types::{BetState, PartyStatus, Pubkey};

verus! {

/// Gross stake, in percent of the net stake that reaches the pools.
pub const TAKE_RATE_PERCENT: u64 = 102;

/// The net stake of a gross amount: `floor(gross / 1.02)`, in integers.
pub open spec fn net_stake(gross: u64) -> int {
    (gross * 100) / (TAKE_RATE_PERCENT as int)
}

/// Splits a gross amount into its net stake and the fee kept back.
pub fn split_take_rate(gross: u64) -> (r: (u64, u64))
    ensures
        r.0 == net_stake(gross),
        r.1 == gross - net_stake(gross),
        r.0 <= gross,
{
    let scaled: u128 = (gross as u128) * 100;
    let net: u128 = scaled / (TAKE_RATE_PERCENT as u128);
    assert(net <= gross) by {
        assert(scaled / 102 <= scaled / 100) by (nonlinear_arith)
            requires scaled >= 0;
        assert(scaled / 100 == gross as int) by (nonlinear_arith)
            requires scaled == gross * 100;
    }
    let net_u64 = net as u64;
    (net_u64, gross - net_u64)
}

/// The side that a party code names: 1 for party one, 2 for party two.
pub open spec fn party_from_code(code: u8) -> Option<PartyStatus> {
    if code == 1 {
        Some(PartyStatus::PartyOne)
    } else if code == 2 {
        Some(PartyStatus::PartyTwo)
    } else {
        None
    }
}

/// Reads a party code.
pub fn decode_party(code: u8) -> (r: Option<PartyStatus>)
    ensures
        r == party_from_code(code),
{
    if code == 1 {
        Some(PartyStatus::PartyOne)
    } else if code == 2 {
        Some(PartyStatus::PartyTwo)
    } else {
        None
    }
}

/// The pool of one side.
pub open spec fn side_pool(m: BetState, side: PartyStatus) -> int {
    match side {
        PartyStatus::PartyOne => m.party_one_pool as int,
        PartyStatus::PartyTwo => m.party_two_pool as int,
    }
}

/// Adding `delta` to the total pools and to one side's pool keeps all three
/// within `u64`.
pub open spec fn stake_fits(m: BetState, side: PartyStatus, delta: int) -> bool {
    &&& 0 <= m.static_total_pool + delta <= u64::MAX
    &&& 0 <= m.running_total_pool + delta <= u64::MAX
    &&& 0 <= side_pool(m, side) + delta <= u64::MAX
}

/// The market after `delta` is added to both totals and to one side's pool.
pub open spec fn adjust_stake(m: BetState, side: PartyStatus, delta: int) -> BetState {
    BetState {
        static_total_pool: (m.static_total_pool + delta) as u64,
        running_total_pool: (m.running_total_pool + delta) as u64,
        party_one_pool: if side == PartyStatus::PartyOne {
            (m.party_one_pool + delta) as u64
        } else {
            m.party_one_pool
        },
        party_two_pool: if side == PartyStatus::PartyTwo {
            (m.party_two_pool + delta) as u64
        } else {
            m.party_two_pool
        },
        ..m
    }
}

/// The four pools of a market after `amount` is added (`credit`) or taken
/// away, or `None` where one of them would leave `u64`.
pub fn shifted_pools(m: &BetState, side: PartyStatus, amount: u64, credit: bool) -> (r: Option<
    (u64, u64, u64, u64),
>)
    ensures
        ({
            let delta = if credit { amount as int } else { -amount };
            &&& r is Some <==> stake_fits(*m, side, delta)
            &&& r matches Some(p) ==> {
                let n = adjust_stake(*m, side, delta);
                p == (n.static_total_pool, n.running_total_pool, n.party_one_pool, n.party_two_pool)
            }
        }),
{
    let (total, running, pool) = if credit {
        (
            m.static_total_pool.checked_add(amount),
            m.running_total_pool.checked_add(amount),
            match side {
                PartyStatus::PartyOne => m.party_one_pool.checked_add(amount),
                PartyStatus::PartyTwo => m.party_two_pool.checked_add(amount),
            },
        )
    } else {
        (
            m.static_total_pool.checked_sub(amount),
            m.running_total_pool.checked_sub(amount),
            match side {
                PartyStatus::PartyOne => m.party_one_pool.checked_sub(amount),
                PartyStatus::PartyTwo => m.party_two_pool.checked_sub(amount),
            },
        )
    };
    match (total, running, pool) {
        (Some(t), Some(r), Some(p)) => match side {
            PartyStatus::PartyOne => Some((t, r, p, m.party_two_pool)),
            PartyStatus::PartyTwo => Some((t, r, m.party_one_pool, p)),
        },
        _ => None,
    }
}

/// Writes the four pools that `shifted_pools` computed back into the market.
pub fn store_pools(m: &mut BetState, p: (u64, u64, u64, u64))
    ensures
        *final(m) == (BetState {
            static_total_pool: p.0,
            running_total_pool: p.1,
            party_one_pool: p.2,
            party_two_pool: p.3,
            ..*old(m)
        }),
{
    m.static_total_pool = p.0;
    m.running_total_pool = p.1;
    m.party_one_pool = p.2;
    m.party_two_pool = p.3;
}

/// Index of the first occurrence of `k` in `s`.
#[verifier::opaque]
pub open spec fn first_index(s: Seq<Pubkey>, k: Pubkey) -> int {
    choose|i: int| 0 <= i < s.len() && s[i] == k && forall|j: int| 0 <= j < i ==> s[j] != k
}

/// Finds where `key` first stands among a user's active wagers.
pub fn find_active_wager(wagers: &Vec<Pubkey>, key: Pubkey) -> (r: Option<usize>)
    ensures
        r is None <==> !wagers@.contains(key),
        r matches Some(i) ==> i == first_index(wagers@, key) && i < wagers@.len()
            && wagers@[i as int] == key,
{
    let mut i: usize = 0;
    while i < wagers.len()
        invariant
            i <= wagers@.len(),
            forall|j: int| 0 <= j < i ==> wagers@[j] != key,
        decreases wagers@.len() - i,
    {
        if wagers[i] == key {
            let ghost s = wagers@;
            assert(0 <= i < s.len() && s[i as int] == key && forall|j: int|
                0 <= j < i ==> s[j] != key);
            reveal(first_index);
            let ghost f = first_index(s, key);
            assert(f == i) by {
                if f < i {
                    assert(s[f] != key);
                } else if f > i {
                    assert(s[i as int] != key);
                }
            }
            return Some(i);
        }
        i += 1;
    }
    assert(!wagers@.contains(key)) by {
        if wagers@.contains(key) {
            let j = choose|j: int| 0 <= j < wagers@.len() && wagers@[j] == key;
            assert(wagers@[j] != key);
        }
    }
    None
}

} // verus!
