use token_sale::account::PoolAccount;
use token_sale::access_control::{
    can_switch_to_buying_round, can_switch_to_trading_round, can_terminate, round_buying,
    round_trading,
};
use token_sale::currency::{Lamports, Tokens};
use token_sale::engine::initialize;
use token_sale::error::ErrorCode;
use token_sale::round::Round;

fn sale() -> PoolAccount {
    let mut dist = Tokens::new(1000);
    let mut vault = Tokens::new(0);
    initialize(
        1, 10, 11, 20,
        0, 0, 1000, 100, 100,
        100, 10000, 0,
        Tokens::new(500), &mut dist, &mut vault,
    )
    .expect("configuration is valid")
}

#[test]
fn tokens_checked_arithmetic() {
    assert_eq!(Tokens::new(2).checked_add(Tokens::new(3)), Some(Tokens::new(5)));
    assert_eq!(Tokens::new(u64::MAX).checked_add(Tokens::new(1)), None);
    assert_eq!(Tokens::new(5).checked_sub(Tokens::new(3)), Some(Tokens::new(2)));
    assert_eq!(Tokens::new(3).checked_sub(Tokens::new(5)), None);
}

#[test]
fn lamports_checked_arithmetic() {
    assert_eq!(Lamports::new(2).checked_add(Lamports::new(3)), Some(Lamports::new(5)));
    assert_eq!(Lamports::new(u64::MAX).checked_add(Lamports::new(1)), None);
    assert_eq!(Lamports::new(5).checked_sub(Lamports::new(5)), Some(Lamports::new(0)));
    assert_eq!(Lamports::new(0).checked_sub(Lamports::new(1)), None);
}

#[test]
fn price_conversions() {
    let pool = sale();
    assert_eq!(pool.try_tokens_to_lamports(Tokens::new(7)), Some(Lamports::new(700)));
    assert_eq!(pool.try_tokens_to_lamports(Tokens::new(0)), Some(Lamports::new(0)));
    // 250 lamports buy 2 whole tokens at price 100
    assert_eq!(pool.try_lamports_to_tokens(Lamports::new(250)), Some(Tokens::new(2)));

    let mut expensive = sale();
    expensive.token_price = u64::MAX;
    assert_eq!(expensive.try_tokens_to_lamports(Tokens::new(2)), None);

    let mut free = sale();
    free.token_price = 0;
    assert_eq!(free.try_lamports_to_tokens(Lamports::new(250)), None);
}

#[test]
fn registry_add_remove_keeps_listing_order() {
    let mut pool = sale();
    assert!(pool.orders.is_empty());
    assert_eq!(pool.add_order(70), Ok(()));
    assert_eq!(pool.add_order(71), Ok(()));
    assert_eq!(pool.add_order(72), Ok(()));
    assert_eq!(pool.orders, vec![70, 71, 72]);
    assert!(pool.has_order(71));

    assert_eq!(pool.remove_order(71), Ok(()));
    assert_eq!(pool.orders, vec![70, 72]);
    assert!(!pool.has_order(71));

    assert_eq!(pool.remove_order(71), Err(ErrorCode::OrderNotFound));
    assert_eq!(pool.orders, vec![70, 72]);
}

#[test]
fn guards_report_the_exact_reason() {
    let mut pool = sale();

    assert_eq!(round_buying(&pool, 0), Ok(()));
    assert_eq!(round_buying(&pool, 100), Err(ErrorCode::BuyingOver));
    assert_eq!(round_trading(&pool, 0), Err(ErrorCode::NotTradingRound));

    assert_eq!(can_switch_to_trading_round(&pool, 99), Err(ErrorCode::BuyingWindowNotElapsed));
    assert_eq!(can_switch_to_trading_round(&pool, 100), Ok(()));
    assert_eq!(can_switch_to_trading_round(&pool, 1000), Err(ErrorCode::CampaignEnded));
    assert_eq!(can_switch_to_buying_round(&pool, 100), Err(ErrorCode::AlreadyBuying));

    pool.current_round = Round::Trading;
    pool.round_start_at = 100;
    assert_eq!(round_trading(&pool, 150), Ok(()));
    assert_eq!(round_trading(&pool, 200), Err(ErrorCode::TradingOver));
    assert_eq!(round_buying(&pool, 150), Err(ErrorCode::NotBuyingRound));
    assert_eq!(can_switch_to_trading_round(&pool, 250), Err(ErrorCode::AlreadyTrading));
    assert_eq!(can_switch_to_buying_round(&pool, 199), Err(ErrorCode::TradingWindowNotElapsed));
    assert_eq!(can_switch_to_buying_round(&pool, 200), Ok(()));
    assert_eq!(can_switch_to_buying_round(&pool, 1000), Err(ErrorCode::CampaignEnded));

    assert_eq!(can_terminate(&pool, 999), Err(ErrorCode::CampaignNotOver));
    assert_eq!(can_terminate(&pool, 1000), Ok(()));
    pool.orders.push(70);
    assert_eq!(can_terminate(&pool, 1000), Err(ErrorCode::ActiveOrdersRemain));
}
