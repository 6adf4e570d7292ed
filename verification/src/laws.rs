use vstd::prelude::*;

use crate::access_control::can_switch_to_trading_check;
use crate::account::{lemma_remove_registered_unique, pool_wf, Order, PoolModel, PRICE_PRECISION};
use crate::currency::Tokens;
use crate::engine::{
    buying_switched, close_order_check, switch_to_buying_check, trading_switched,
};
use crate::error::ErrorCode;
use crate::round::Round;

verus! {

/// Closing an order does not repeat: once a closure has succeeded, a
/// second closure of the same order — by its owner, whatever the balances
/// have become — fails with `OrderNotFound`, because the order has left
/// the registry.
pub proof fn lemma_close_order_twice_fails(
    p: PoolModel,
    o: Order,
    caller: u64,
    escrow: Tokens,
    owner_tokens: Tokens,
    escrow_after: Tokens,
    owner_tokens_after: Tokens,
)
    requires
        pool_wf(p),
        close_order_check(p, o, caller, escrow, owner_tokens) is Ok,
    ensures
        close_order_check(
            (PoolModel { orders: p.orders.remove_value(o.token_vault), ..p }),
            (Order { token_amount: (Tokens { amount: 0 }), ..o }),
            caller,
            escrow_after,
            owner_tokens_after,
        ) == Err::<(), ErrorCode>(ErrorCode::OrderNotFound),
{
    lemma_remove_registered_unique(p.orders, o.token_vault);
}

/// Round alternation: starting from a Buying round, switching to Trading
/// at `t1` and back to Buying at `t2` restores the Buying round, and the
/// recalibrated price is exactly
/// `floor(old_price * coeff_a / PRICE_PRECISION) + coeff_b` — a nonzero
/// value determined by the sale's own fields alone, so the same inputs
/// always reproduce it. The sale stays well-formed throughout.
pub proof fn lemma_round_alternation(p: PoolModel, t1: u64, t2: u64)
    requires
        pool_wf(p),
        can_switch_to_trading_check(p, t1) is Ok,
        switch_to_buying_check(trading_switched(p, t1), t2) is Ok,
    ensures
        ({
            let half = trading_switched(p, t1);
            let full = buying_switched(half, t2);
            &&& p.current_round == Round::Buying
            &&& half.current_round == Round::Trading
            &&& full.current_round == Round::Buying
            &&& full.token_price
                == p.token_price * p.coeff_a / PRICE_PRECISION as int + p.coeff_b
            &&& full.token_price != 0
            &&& pool_wf(trading_switched(p, t1))
            &&& pool_wf(full)
        }),
{
}

} // verus!
