use token_sale::account::PoolAccount;
use token_sale::currency::{Lamports, Tokens};
use token_sale::engine::{
    buy, close_order, initialize, place_order, redeem_order, switch_to_buying,
    switch_to_trading, terminate,
};
use token_sale::error::ErrorCode;
use token_sale::round::Round;

const OWNER: u64 = 1;
const SELLING_MINT: u64 = 10;
const PAYMENT_MINT: u64 = 11;
const VAULT: u64 = 20;
const SELLER: u64 = 7;

/// A sale created at time 0: first round at 0, end at 1000, both windows
/// 100 seconds long, price 100, recalibration `price * 1.0 + 0`.
fn new_sale(dist: &mut Tokens, vault: &mut Tokens) -> PoolAccount {
    initialize(
        OWNER, SELLING_MINT, PAYMENT_MINT, VAULT,
        0, 0, 1000, 100, 100,
        100, 10000, 0,
        Tokens::new(500), dist, vault,
    )
    .expect("configuration is valid")
}

#[test]
fn buy_five_at_price_100_pays_500() {
    let mut dist = Tokens::new(1000);
    let mut vault = Tokens::new(0);
    let pool = new_sale(&mut dist, &mut vault);
    assert_eq!(vault.amount, 500);
    assert_eq!(dist.amount, 500);
    assert_eq!(pool.token_price, 100);
    assert_eq!(pool.current_round, Round::Buying);

    let mut buyer_l = Lamports::new(10_000);
    let mut buyer_t = Tokens::new(0);
    let mut pool_l = Lamports::new(0);
    let r = buy(&pool, 50, Tokens::new(5), &mut vault, &mut buyer_l, &mut buyer_t, &mut pool_l);
    assert_eq!(r, Ok(()));
    // payment leg and asset leg, together
    assert_eq!(buyer_l.amount, 9_500);
    assert_eq!(pool_l.amount, 500);
    assert_eq!(vault.amount, 495);
    assert_eq!(buyer_t.amount, 5);
}

#[test]
fn redeem_four_of_ten_at_price_50_pays_200() {
    let mut dist = Tokens::new(1000);
    let mut vault = Tokens::new(0);
    let mut pool = new_sale(&mut dist, &mut vault);
    assert_eq!(switch_to_trading(&mut pool, 100), Ok(()));

    let mut seller_t = Tokens::new(50);
    let mut escrow = Tokens::new(0);
    let mut order = place_order(
        &mut pool, 110, SELLER, 70, Tokens::new(10), 50, &mut seller_t, &mut escrow,
    )
    .expect("order is valid");
    assert_eq!(order.token_amount, Tokens::new(10));
    assert_eq!(order.token_price, 50);
    assert_eq!(order.owner, SELLER);
    assert_eq!(seller_t.amount, 40);
    assert_eq!(escrow.amount, 10);
    assert_eq!(pool.orders, vec![70]);

    let mut buyer_l = Lamports::new(1000);
    let mut buyer_t = Tokens::new(0);
    let mut owner_l = Lamports::new(0);
    let r = redeem_order(
        &mut pool, &mut order, 120, Tokens::new(4),
        &mut escrow, &mut buyer_l, &mut buyer_t, &mut owner_l,
    );
    assert_eq!(r, Ok(()));
    assert_eq!(owner_l.amount, 200);
    assert_eq!(buyer_l.amount, 800);
    assert_eq!(buyer_t.amount, 4);
    assert_eq!(order.token_amount, Tokens::new(6));
    assert_eq!(escrow.amount, 6);
    assert_eq!(pool.last_round_trading_amount.amount, 200);
    assert_eq!(pool.orders, vec![70]);
}

#[test]
fn redeeming_the_rest_removes_the_order() {
    let mut dist = Tokens::new(1000);
    let mut vault = Tokens::new(0);
    let mut pool = new_sale(&mut dist, &mut vault);
    assert_eq!(switch_to_trading(&mut pool, 100), Ok(()));

    let mut seller_t = Tokens::new(50);
    let mut escrow = Tokens::new(0);
    let mut order = place_order(
        &mut pool, 110, SELLER, 70, Tokens::new(10), 50, &mut seller_t, &mut escrow,
    )
    .expect("order is valid");

    let mut buyer_l = Lamports::new(1000);
    let mut buyer_t = Tokens::new(0);
    let mut owner_l = Lamports::new(0);
    let r = redeem_order(
        &mut pool, &mut order, 120, Tokens::new(4),
        &mut escrow, &mut buyer_l, &mut buyer_t, &mut owner_l,
    );
    assert_eq!(r, Ok(()));

    // take the remaining six: the order drains and leaves the registry
    let r = redeem_order(
        &mut pool, &mut order, 130, Tokens::new(6),
        &mut escrow, &mut buyer_l, &mut buyer_t, &mut owner_l,
    );
    assert_eq!(r, Ok(()));
    assert_eq!(order.token_amount, Tokens::new(0));
    assert_eq!(escrow.amount, 0);
    assert_eq!(owner_l.amount, 500);
    assert_eq!(buyer_t.amount, 10);
    assert!(pool.orders.is_empty());
    assert_eq!(pool.last_round_trading_amount.amount, 500);

    // a later closure of that reference fails: the order no longer exists
    let mut owner_t = Tokens::new(0);
    let r = close_order(&mut pool, &mut order, SELLER, &mut escrow, &mut owner_t);
    assert_eq!(r, Err(ErrorCode::OrderNotFound));
    assert_eq!(owner_t.amount, 0);
}

#[test]
fn buying_during_trading_and_listing_during_buying_fail() {
    let mut dist = Tokens::new(1000);
    let mut vault = Tokens::new(0);
    let mut pool = new_sale(&mut dist, &mut vault);

    // listing during Buying fails
    let mut seller_t = Tokens::new(50);
    let mut escrow = Tokens::new(0);
    let r = place_order(
        &mut pool, 10, SELLER, 70, Tokens::new(10), 50, &mut seller_t, &mut escrow,
    );
    assert_eq!(r, Err(ErrorCode::NotTradingRound));
    assert_eq!(seller_t.amount, 50);
    assert!(pool.orders.is_empty());

    // buying during Trading fails
    assert_eq!(switch_to_trading(&mut pool, 100), Ok(()));
    let mut buyer_l = Lamports::new(10_000);
    let mut buyer_t = Tokens::new(0);
    let mut pool_l = Lamports::new(0);
    let r = buy(&pool, 150, Tokens::new(5), &mut vault, &mut buyer_l, &mut buyer_t, &mut pool_l);
    assert_eq!(r, Err(ErrorCode::NotBuyingRound));
    assert_eq!(buyer_l.amount, 10_000);
    assert_eq!(vault.amount, 500);
}

#[test]
fn terminate_blocked_by_open_order_then_succeeds() {
    let mut dist = Tokens::new(1000);
    let mut vault = Tokens::new(0);
    let mut pool = new_sale(&mut dist, &mut vault);
    assert_eq!(switch_to_trading(&mut pool, 100), Ok(()));

    let mut seller_t = Tokens::new(50);
    let mut escrow = Tokens::new(0);
    let mut order = place_order(
        &mut pool, 110, SELLER, 70, Tokens::new(10), 50, &mut seller_t, &mut escrow,
    )
    .expect("order is valid");

    // past end_at, but one order is still open
    let r = terminate(&pool, OWNER, 1000, &mut vault);
    assert_eq!(r, Err(ErrorCode::ActiveOrdersRemain));
    assert_eq!(vault.amount, 500);

    // the seller withdraws the order; closure works in any round
    let mut owner_t = Tokens::new(0);
    let r = close_order(&mut pool, &mut order, SELLER, &mut escrow, &mut owner_t);
    assert_eq!(r, Ok(()));
    assert_eq!(owner_t.amount, 10);
    assert_eq!(escrow.amount, 0);
    assert_eq!(order.token_amount, Tokens::new(0));
    assert!(pool.orders.is_empty());

    let r = terminate(&pool, OWNER, 1000, &mut vault);
    assert_eq!(r, Ok(()));
    assert_eq!(vault.amount, 0);
}

#[test]
fn round_alternation_restores_buying_and_recalibrates() {
    let mut dist = Tokens::new(1000);
    let mut vault = Tokens::new(0);
    // price 100, multiplier 1.5, offset 7
    let mut pool = initialize(
        OWNER, SELLING_MINT, PAYMENT_MINT, VAULT,
        0, 0, 1000, 100, 100,
        100, 15000, 7,
        Tokens::new(500), &mut dist, &mut vault,
    )
    .expect("configuration is valid");
    assert_eq!(pool.current_round, Round::Buying);

    assert_eq!(switch_to_trading(&mut pool, 100), Ok(()));
    assert_eq!(pool.current_round, Round::Trading);
    assert_eq!(pool.round_start_at, 100);
    assert_eq!(pool.last_round_trading_amount.amount, 0);

    assert_eq!(switch_to_buying(&mut pool, 200), Ok(()));
    assert_eq!(pool.current_round, Round::Buying);
    assert_eq!(pool.round_start_at, 200);
    // floor(100 * 15000 / 10000) + 7
    assert_eq!(pool.token_price, 157);
}

#[test]
fn recalibration_rounds_down() {
    let mut dist = Tokens::new(1000);
    let mut vault = Tokens::new(0);
    // price 3, multiplier 1.5: 4.5 floors to 4
    let mut pool = initialize(
        OWNER, SELLING_MINT, PAYMENT_MINT, VAULT,
        0, 0, 1000, 100, 100,
        3, 15000, 0,
        Tokens::new(500), &mut dist, &mut vault,
    )
    .expect("configuration is valid");
    assert_eq!(switch_to_trading(&mut pool, 100), Ok(()));
    assert_eq!(switch_to_buying(&mut pool, 200), Ok(()));
    assert_eq!(pool.token_price, 4);
}

#[test]
fn price_stays_nonzero_through_rounds() {
    let mut dist = Tokens::new(1000);
    let mut vault = Tokens::new(0);
    let mut pool = new_sale(&mut dist, &mut vault);
    assert_ne!(pool.token_price, 0);
    for cycle in 0..3u64 {
        let t = 100 + 200 * cycle;
        assert_eq!(switch_to_trading(&mut pool, t), Ok(()));
        assert_eq!(switch_to_buying(&mut pool, t + 100), Ok(()));
        assert_ne!(pool.token_price, 0);
    }
}

#[test]
fn recalibration_to_zero_is_rejected_and_round_stays_trading() {
    let mut dist = Tokens::new(1000);
    let mut vault = Tokens::new(0);
    // multiplier 0.5 on price 1 floors to 0, offset 0: rejected
    let mut pool = initialize(
        OWNER, SELLING_MINT, PAYMENT_MINT, VAULT,
        0, 0, 1000, 100, 100,
        1, 5000, 0,
        Tokens::new(500), &mut dist, &mut vault,
    )
    .expect("configuration is valid");
    assert_eq!(switch_to_trading(&mut pool, 100), Ok(()));
    let r = switch_to_buying(&mut pool, 200);
    assert_eq!(r, Err(ErrorCode::ZeroPrice));
    assert_eq!(pool.current_round, Round::Trading);
    assert_eq!(pool.token_price, 1);
}

#[test]
fn withdraw_sweeps_balance_above_reserve() {
    let mut dist = Tokens::new(1000);
    let mut vault = Tokens::new(0);
    let pool = new_sale(&mut dist, &mut vault);

    let mut pool_l = Lamports::new(2_390);
    let mut owner_l = Lamports::new(60);
    let r = token_sale::engine::withdraw_lamports(
        &pool, OWNER, &mut pool_l, Lamports::new(890), &mut owner_l,
    );
    assert_eq!(r, Ok(()));
    assert_eq!(pool_l.amount, 890);
    assert_eq!(owner_l.amount, 1_560);
}
