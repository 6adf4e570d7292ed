use vstd::prelude::*;

use crate::account::{PoolAccount, PoolModel};
use crate::error::ErrorCode;
use crate::round::Round;

verus! {

/// Whether a Buying round is active at `now`: the current round is Buying
/// and its window has not yet elapsed.
pub open spec fn round_buying_check(p: PoolModel, now: u64) -> Result<(), ErrorCode> {
    if p.current_round != Round::Buying {
        Err(ErrorCode::NotBuyingRound)
    } else if now >= p.round_start_at + p.buying_duration {
        Err(ErrorCode::BuyingOver)
    } else {
        Ok(())
    }
}

/// Whether a Trading round is active at `now`: the current round is
/// Trading and its window has not yet elapsed.
pub open spec fn round_trading_check(p: PoolModel, now: u64) -> Result<(), ErrorCode> {
    if p.current_round != Round::Trading {
        Err(ErrorCode::NotTradingRound)
    } else if now >= p.round_start_at + p.trading_duration {
        Err(ErrorCode::TradingOver)
    } else {
        Ok(())
    }
}

/// Whether the sale may switch from Buying to Trading at `now`: the
/// campaign has not ended, the sale is not already Trading, and the
/// current Buying window has fully elapsed.
pub open spec fn can_switch_to_trading_check(p: PoolModel, now: u64) -> Result<(), ErrorCode> {
    if now >= p.end_at {
        Err(ErrorCode::CampaignEnded)
    } else if p.current_round == Round::Trading {
        Err(ErrorCode::AlreadyTrading)
    } else if now < p.round_start_at + p.buying_duration {
        Err(ErrorCode::BuyingWindowNotElapsed)
    } else {
        Ok(())
    }
}

/// Whether the sale may switch from Trading to Buying at `now`: the
/// campaign has not ended, the sale is not already Buying, and the
/// current Trading window has fully elapsed.
pub open spec fn can_switch_to_buying_check(p: PoolModel, now: u64) -> Result<(), ErrorCode> {
    if now >= p.end_at {
        Err(ErrorCode::CampaignEnded)
    } else if p.current_round == Round::Buying {
        Err(ErrorCode::AlreadyBuying)
    } else if now < p.round_start_at + p.trading_duration {
        Err(ErrorCode::TradingWindowNotElapsed)
    } else {
        Ok(())
    }
}

/// Whether the campaign may be terminated at `now`: its end time has
/// passed and no open orders remain in the registry.
pub open spec fn can_terminate_check(p: PoolModel, now: u64) -> Result<(), ErrorCode> {
    if now < p.end_at {
        Err(ErrorCode::CampaignNotOver)
    } else if p.orders.len() > 0 {
        Err(ErrorCode::ActiveOrdersRemain)
    } else {
        Ok(())
    }
}

/// Guard for primary purchases: succeeds exactly when a Buying round is
/// active at `now`.
pub fn round_buying(pool: &PoolAccount, now: u64) -> (r: Result<(), ErrorCode>)
    ensures
        r == round_buying_check(pool@, now),
{
    if pool.current_round != Round::Buying {
        return Err(ErrorCode::NotBuyingRound);
    }
    // A window end past the largest representable time cannot have elapsed.
    match pool.round_start_at.checked_add(pool.buying_duration) {
        Some(ends_at) => {
            if now >= ends_at {
                Err(ErrorCode::BuyingOver)
            } else {
                Ok(())
            }
        },
        None => Ok(()),
    }
}

/// Guard for order placement and redemption: succeeds exactly when a
/// Trading round is active at `now`.
pub fn round_trading(pool: &PoolAccount, now: u64) -> (r: Result<(), ErrorCode>)
    ensures
        r == round_trading_check(pool@, now),
{
    if pool.current_round != Round::Trading {
        return Err(ErrorCode::NotTradingRound);
    }
    match pool.round_start_at.checked_add(pool.trading_duration) {
        Some(ends_at) => {
            if now >= ends_at {
                Err(ErrorCode::TradingOver)
            } else {
                Ok(())
            }
        },
        None => Ok(()),
    }
}

/// Guard for the Buying-to-Trading switch: succeeds exactly when the
/// campaign is still running, the sale is in Buying, and the Buying
/// window has fully elapsed. Switching a round off early is disallowed.
pub fn can_switch_to_trading_round(pool: &PoolAccount, now: u64) -> (r: Result<(), ErrorCode>)
    ensures
        r == can_switch_to_trading_check(pool@, now),
{
    if now >= pool.end_at {
        return Err(ErrorCode::CampaignEnded);
    }
    if pool.current_round == Round::Trading {
        return Err(ErrorCode::AlreadyTrading);
    }
    match pool.round_start_at.checked_add(pool.buying_duration) {
        Some(ends_at) => {
            if now < ends_at {
                Err(ErrorCode::BuyingWindowNotElapsed)
            } else {
                Ok(())
            }
        },
        None => Err(ErrorCode::BuyingWindowNotElapsed),
    }
}

/// Guard for the Trading-to-Buying switch: succeeds exactly when the
/// campaign is still running, the sale is in Trading, and the Trading
/// window has fully elapsed.
pub fn can_switch_to_buying_round(pool: &PoolAccount, now: u64) -> (r: Result<(), ErrorCode>)
    ensures
        r == can_switch_to_buying_check(pool@, now),
{
    if now >= pool.end_at {
        return Err(ErrorCode::CampaignEnded);
    }
    if pool.current_round == Round::Buying {
        return Err(ErrorCode::AlreadyBuying);
    }
    match pool.round_start_at.checked_add(pool.trading_duration) {
        Some(ends_at) => {
            if now < ends_at {
                Err(ErrorCode::TradingWindowNotElapsed)
            } else {
                Ok(())
            }
        },
        None => Err(ErrorCode::TradingWindowNotElapsed),
    }
}

/// Guard for termination: succeeds exactly when the campaign's end time
/// has passed and the order registry is empty.
pub fn can_terminate(pool: &PoolAccount, now: u64) -> (r: Result<(), ErrorCode>)
    ensures
        r == can_terminate_check(pool@, now),
{
    if now < pool.end_at {
        return Err(ErrorCode::CampaignNotOver);
    }
    if pool.orders.len() > 0 {
        return Err(ErrorCode::ActiveOrdersRemain);
    }
    Ok(())
}

} // verus!
