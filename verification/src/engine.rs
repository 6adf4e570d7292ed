use vstd::prelude::*;

use crate::access_control::{
    can_switch_to_buying_check, can_switch_to_buying_round, can_switch_to_trading_check,
    can_switch_to_trading_round, can_terminate, can_terminate_check, round_buying,
    round_buying_check, round_trading, round_trading_check,
};
use crate::account::{
    lemma_remove_registered_unique, PoolAccount, PoolModel, Order, MAX_ORDERS,
    PRICE_PRECISION,
};
use crate::currency::{Lamports, Tokens};
use crate::error::ErrorCode;
use crate::round::Round;

verus! {

// ---------------------------------------------------------------------------
// Campaign initialization
// ---------------------------------------------------------------------------

/// Which error, if any, `initialize` rejects its inputs with: a zero price,
/// an offer larger than the funding account's balance, a first round that
/// would start in the past, or an end time less than one full
/// Buying-plus-Trading cycle after the first round's start.
pub open spec fn initialize_check(
    token_price: u64,
    amount_to_sell: Tokens,
    distribution_tokens: Tokens,
    now: u64,
    round_start_at: u64,
    end_at: u64,
    buying_duration: u64,
    trading_duration: u64,
) -> Result<(), ErrorCode> {
    if token_price == 0 {
        Err(ErrorCode::ZeroPrice)
    } else if amount_to_sell.amount > distribution_tokens.amount {
        Err(ErrorCode::NotEnoughTokensForSale)
    } else if round_start_at < now {
        Err(ErrorCode::FirstRoundAlreadyStarted)
    } else if end_at < round_start_at + buying_duration + trading_duration {
        Err(ErrorCode::EndsBeforeFullCircle)
    } else {
        Ok(())
    }
}

/// Creates a sale: checks the configuration, funds the vault with
/// `amount_to_sell` from the funding account, and returns the sale record
/// with its first Buying round scheduled at `round_start_at`.
///
/// On any rejection both balances are left untouched. On success the
/// record is well-formed; in particular its price is `token_price`, which
/// is never zero.
pub fn initialize(
    owner: u64,
    selling_mint: u64,
    payment_mint: u64,
    vault_selling: u64,
    now: u64,
    round_start_at: u64,
    end_at: u64,
    buying_duration: u64,
    trading_duration: u64,
    token_price: u64,
    coeff_a: u64,
    coeff_b: u64,
    amount_to_sell: Tokens,
    tokens_for_distribution: &mut Tokens,
    vault_tokens: &mut Tokens,
) -> (r: Result<PoolAccount, ErrorCode>)
    requires
        old(vault_tokens).amount == 0,
    ensures
        r is Ok <==> initialize_check(
            token_price, amount_to_sell, *old(tokens_for_distribution),
            now, round_start_at, end_at, buying_duration, trading_duration,
        ) is Ok,
        r matches Err(e) ==> initialize_check(
            token_price, amount_to_sell, *old(tokens_for_distribution),
            now, round_start_at, end_at, buying_duration, trading_duration,
        ) == Err::<(), ErrorCode>(e),
        r matches Ok(pool) ==> pool@ == (PoolModel {
            owner,
            selling_mint,
            payment_mint,
            vault_selling,
            end_at,
            buying_duration,
            trading_duration,
            token_price,
            current_round: Round::Buying,
            round_start_at,
            coeff_a,
            coeff_b,
            last_round_trading_amount: 0,
            orders: Seq::empty(),
        }),
        r matches Ok(pool) ==> pool.wf() && pool.token_price == token_price
            && pool.token_price != 0,
        r is Ok ==> final(tokens_for_distribution).amount
            == old(tokens_for_distribution).amount - amount_to_sell.amount
            && final(vault_tokens).amount == amount_to_sell.amount,
        r is Err ==> *final(tokens_for_distribution) == *old(tokens_for_distribution)
            && *final(vault_tokens) == *old(vault_tokens),
{
    if token_price == 0 {
        return Err(ErrorCode::ZeroPrice);
    }
    if amount_to_sell.amount > tokens_for_distribution.amount {
        return Err(ErrorCode::NotEnoughTokensForSale);
    }
    if round_start_at < now {
        return Err(ErrorCode::FirstRoundAlreadyStarted);
    }
    // end_at must leave room for one full cycle after the first round
    // starts; a cycle end past the largest representable time never fits.
    let cycle_end: u64 = match round_start_at.checked_add(buying_duration) {
        Some(v) => match v.checked_add(trading_duration) {
            Some(w) => w,
            None => return Err(ErrorCode::EndsBeforeFullCircle),
        },
        None => return Err(ErrorCode::EndsBeforeFullCircle),
    };
    if end_at < cycle_end {
        return Err(ErrorCode::EndsBeforeFullCircle);
    }

    *tokens_for_distribution = Tokens { amount: tokens_for_distribution.amount - amount_to_sell.amount };
    *vault_tokens = amount_to_sell;

    let pool = PoolAccount {
        owner,
        selling_mint,
        payment_mint,
        vault_selling,
        end_at,
        buying_duration,
        trading_duration,
        token_price,
        current_round: Round::Buying,
        round_start_at,
        coeff_a,
        coeff_b,
        last_round_trading_amount: Lamports { amount: 0 },
        orders: Vec::new(),
    };
    proof {
        assert(pool@ =~= (PoolModel {
            owner,
            selling_mint,
            payment_mint,
            vault_selling,
            end_at,
            buying_duration,
            trading_duration,
            token_price,
            current_round: Round::Buying,
            round_start_at,
            coeff_a,
            coeff_b,
            last_round_trading_amount: 0,
            orders: Seq::empty(),
        }));
    }
    Ok(pool)
}

// ---------------------------------------------------------------------------
// Primary market
// ---------------------------------------------------------------------------

/// Which error, if any, `buy` rejects a purchase with, in the order the
/// checks are made: the Buying-round guard, vault inventory, the checked
/// price multiplication, the buyer's payment balance, and the capacity of
/// the two credited balances.
pub open spec fn buy_check(
    p: PoolModel,
    now: u64,
    amount_to_buy: Tokens,
    vault: Tokens,
    buyer_lamports: Lamports,
    buyer_tokens: Tokens,
    pool_lamports: Lamports,
) -> Result<(), ErrorCode> {
    let payment = amount_to_buy.amount * p.token_price;
    if round_buying_check(p, now) is Err {
        round_buying_check(p, now)
    } else if vault.amount < amount_to_buy.amount {
        Err(ErrorCode::InsufficientTokensInVault)
    } else if payment > u64::MAX {
        Err(ErrorCode::ArithmeticOverflow)
    } else if buyer_lamports.amount < payment {
        Err(ErrorCode::InsufficientPaymentToBuyTokens)
    } else if pool_lamports.amount + payment > u64::MAX
        || buyer_tokens.amount + amount_to_buy.amount > u64::MAX {
        Err(ErrorCode::ArithmeticOverflow)
    } else {
        Ok(())
    }
}

/// A primary purchase: the buyer pays `amount_to_buy * token_price` into
/// the sale's custody and receives `amount_to_buy` tokens from the vault.
///
/// The two legs settle together or not at all: on success the vault drops
/// by exactly `amount_to_buy` and the buyer's payment balance by exactly
/// the payment due, and on any rejection every balance is left untouched.
/// All checks run before either leg moves.
pub fn buy(
    pool: &PoolAccount,
    now: u64,
    amount_to_buy: Tokens,
    vault_tokens: &mut Tokens,
    buyer_lamports: &mut Lamports,
    buyer_tokens: &mut Tokens,
    pool_lamports: &mut Lamports,
) -> (r: Result<(), ErrorCode>)
    ensures
        r == buy_check(
            pool@, now, amount_to_buy, *old(vault_tokens), *old(buyer_lamports),
            *old(buyer_tokens), *old(pool_lamports),
        ),
        r is Ok ==> ({
            let payment = amount_to_buy.amount * pool.token_price;
            &&& final(vault_tokens).amount == old(vault_tokens).amount - amount_to_buy.amount
            &&& final(buyer_tokens).amount == old(buyer_tokens).amount + amount_to_buy.amount
            &&& final(buyer_lamports).amount == old(buyer_lamports).amount - payment
            &&& final(pool_lamports).amount == old(pool_lamports).amount + payment
        }),
        r is Err ==> *final(vault_tokens) == *old(vault_tokens)
            && *final(buyer_lamports) == *old(buyer_lamports)
            && *final(buyer_tokens) == *old(buyer_tokens)
            && *final(pool_lamports) == *old(pool_lamports),
{
    if let Err(e) = round_buying(pool, now) {
        return Err(e);
    }
    if vault_tokens.amount < amount_to_buy.amount {
        return Err(ErrorCode::InsufficientTokensInVault);
    }
    let payment: Lamports = match pool.try_tokens_to_lamports(amount_to_buy) {
        Some(l) => l,
        None => return Err(ErrorCode::ArithmeticOverflow),
    };
    if buyer_lamports.amount < payment.amount {
        return Err(ErrorCode::InsufficientPaymentToBuyTokens);
    }
    let credited_pool: Lamports = match (*pool_lamports).checked_add(payment) {
        Some(l) => l,
        None => return Err(ErrorCode::ArithmeticOverflow),
    };
    let credited_buyer: Tokens = match (*buyer_tokens).checked_add(amount_to_buy) {
        Some(t) => t,
        None => return Err(ErrorCode::ArithmeticOverflow),
    };

    // Both legs of the settlement, after every check has passed.
    *buyer_lamports = Lamports { amount: buyer_lamports.amount - payment.amount };
    *pool_lamports = credited_pool;
    *vault_tokens = Tokens { amount: vault_tokens.amount - amount_to_buy.amount };
    *buyer_tokens = credited_buyer;
    Ok(())
}

// ---------------------------------------------------------------------------
// Round switching and price adjustment
// ---------------------------------------------------------------------------

/// The sale after a successful switch to Trading at `now`: the Trading
/// round starts at `now` and its settled volume is reset.
pub open spec fn trading_switched(p: PoolModel, now: u64) -> PoolModel {
    PoolModel {
        current_round: Round::Trading,
        round_start_at: now,
        last_round_trading_amount: 0,
        ..p
    }
}

/// The recalibrated price: `floor(token_price * coeff_a / PRICE_PRECISION)
/// + coeff_b`, in exact integer arithmetic.
pub open spec fn next_token_price(p: PoolModel) -> int {
    p.token_price * p.coeff_a / PRICE_PRECISION as int + p.coeff_b
}

/// The sale after a successful switch to Buying at `now`: the Buying round
/// starts at `now` and the price is recalibrated.
pub open spec fn buying_switched(p: PoolModel, now: u64) -> PoolModel {
    PoolModel {
        current_round: Round::Buying,
        round_start_at: now,
        token_price: next_token_price(p) as u64,
        ..p
    }
}

/// Which error, if any, `switch_to_buying` fails with: the guard, an
/// overflow in the fixed-point recalibration, or a recalibrated price of
/// zero. On any of these the round remains Trading.
pub open spec fn switch_to_buying_check(p: PoolModel, now: u64) -> Result<(), ErrorCode> {
    if can_switch_to_buying_check(p, now) is Err {
        can_switch_to_buying_check(p, now)
    } else if p.token_price * p.coeff_a > u64::MAX {
        Err(ErrorCode::ArithmeticOverflow)
    } else if next_token_price(p) > u64::MAX {
        Err(ErrorCode::ArithmeticOverflow)
    } else if next_token_price(p) == 0 {
        Err(ErrorCode::ZeroPrice)
    } else {
        Ok(())
    }
}

/// Switches the sale from Buying to Trading. The Trading round starts at
/// `now`, and the volume counter for the new round is reset to zero.
pub fn switch_to_trading(pool: &mut PoolAccount, now: u64) -> (r: Result<(), ErrorCode>)
    ensures
        r == can_switch_to_trading_check(old(pool)@, now),
        r is Ok ==> final(pool)@ == trading_switched(old(pool)@, now),
        r is Err ==> *final(pool) == *old(pool),
        old(pool).wf() ==> final(pool).wf(),
{
    if let Err(e) = can_switch_to_trading_round(pool, now) {
        return Err(e);
    }
    pool.round_start_at = now;
    pool.current_round = Round::Trading;
    pool.last_round_trading_amount = Lamports { amount: 0 };
    proof {
        assert(pool@ =~= trading_switched(old(pool)@, now));
    }
    Ok(())
}

/// Switches the sale from Trading to Buying and recalibrates the price.
///
/// The new price is `floor(old_price * coeff_a / PRICE_PRECISION) +
/// coeff_b`, computed in checked fixed-point integer arithmetic; on
/// overflow, or when the result would be zero, the switch is rejected and
/// the round remains Trading. On success the new price is never zero.
pub fn switch_to_buying(pool: &mut PoolAccount, now: u64) -> (r: Result<(), ErrorCode>)
    ensures
        r == switch_to_buying_check(old(pool)@, now),
        r is Ok ==> final(pool)@ == buying_switched(old(pool)@, now)
            && final(pool).token_price == next_token_price(old(pool)@)
            && final(pool).token_price != 0,
        r is Err ==> *final(pool) == *old(pool),
        old(pool).wf() ==> final(pool).wf(),
{
    if let Err(e) = can_switch_to_buying_round(pool, now) {
        return Err(e);
    }
    let scaled: u64 = match pool.token_price.checked_mul(pool.coeff_a) {
        Some(v) => v,
        None => return Err(ErrorCode::ArithmeticOverflow),
    };
    let floored: u64 = scaled / PRICE_PRECISION;
    let recalibrated: u64 = match floored.checked_add(pool.coeff_b) {
        Some(v) => v,
        None => return Err(ErrorCode::ArithmeticOverflow),
    };
    if recalibrated == 0 {
        return Err(ErrorCode::ZeroPrice);
    }
    pool.round_start_at = now;
    pool.current_round = Round::Buying;
    pool.token_price = recalibrated;
    proof {
        assert(pool@ =~= buying_switched(old(pool)@, now));
    }
    Ok(())
}

// ---------------------------------------------------------------------------
// Order lifecycle
// ---------------------------------------------------------------------------

/// Which error, if any, `place_order` rejects a listing with: the
/// Trading-round guard, a listing of less than one token, a seller balance
/// not strictly greater than the amount listed, or a full registry.
pub open spec fn place_order_check(
    p: PoolModel,
    now: u64,
    amount_to_sell: Tokens,
    seller_tokens: Tokens,
) -> Result<(), ErrorCode> {
    if round_trading_check(p, now) is Err {
        round_trading_check(p, now)
    } else if amount_to_sell.amount < 1 {
        Err(ErrorCode::SellingTooFewTokens)
    } else if seller_tokens.amount <= amount_to_sell.amount {
        Err(ErrorCode::InsufficientTokensInVault)
    } else if p.orders.len() >= MAX_ORDERS {
        Err(ErrorCode::RegistryFull)
    } else {
        Ok(())
    }
}

/// Lists `amount_to_sell` tokens for resale at `price_for_token` each:
/// moves them from the seller's holding into the freshly created escrow at
/// `order_vault`, registers the escrow address, and returns the order.
///
/// The seller must hold strictly more than the amount listed. The escrow
/// is freshly created by the host, so it starts empty and its address is
/// not yet registered. Escrow funding and registration happen together or
/// not at all.
pub fn place_order(
    pool: &mut PoolAccount,
    now: u64,
    seller: u64,
    order_vault: u64,
    amount_to_sell: Tokens,
    price_for_token: u64,
    seller_tokens: &mut Tokens,
    order_vault_tokens: &mut Tokens,
) -> (r: Result<Order, ErrorCode>)
    requires
        old(order_vault_tokens).amount == 0,
        !old(pool)@.orders.contains(order_vault),
    ensures
        r is Ok <==> place_order_check(old(pool)@, now, amount_to_sell, *old(seller_tokens)) is Ok,
        r matches Err(e) ==> place_order_check(old(pool)@, now, amount_to_sell, *old(seller_tokens))
            == Err::<(), ErrorCode>(e),
        r matches Ok(order) ==> order == (Order {
            owner: seller,
            created_at: now,
            token_amount: amount_to_sell,
            token_price: price_for_token,
            token_vault: order_vault,
        }),
        r is Ok ==> final(pool)@ == (PoolModel {
            orders: old(pool)@.orders.push(order_vault),
            ..old(pool)@
        }),
        r is Ok ==> final(pool)@.orders.contains(order_vault),
        r is Ok ==> final(seller_tokens).amount
            == old(seller_tokens).amount - amount_to_sell.amount
            && final(order_vault_tokens).amount == amount_to_sell.amount,
        r is Err ==> *final(pool) == *old(pool)
            && *final(seller_tokens) == *old(seller_tokens)
            && *final(order_vault_tokens) == *old(order_vault_tokens),
        old(pool).wf() ==> final(pool).wf(),
{
    if let Err(e) = round_trading(pool, now) {
        return Err(e);
    }
    if amount_to_sell.amount < 1 {
        return Err(ErrorCode::SellingTooFewTokens);
    }
    if seller_tokens.amount <= amount_to_sell.amount {
        return Err(ErrorCode::InsufficientTokensInVault);
    }
    if let Err(e) = pool.add_order(order_vault) {
        return Err(e);
    }

    *seller_tokens = Tokens { amount: seller_tokens.amount - amount_to_sell.amount };
    *order_vault_tokens = amount_to_sell;
    proof {
        assert(pool@.orders[old(pool)@.orders.len() as int] == order_vault);
        assert(pool@.orders.contains(order_vault));
    }
    Ok(Order {
        owner: seller,
        created_at: now,
        token_amount: amount_to_sell,
        token_price: price_for_token,
        token_vault: order_vault,
    })
}

/// Which error, if any, `redeem_order` rejects a redemption with, in the
/// order the checks are made: the Trading-round guard, a redemption of
/// less than one token, the order's escrowed inventory, the checked price
/// multiplication at the order's own price, the buyer's payment balance,
/// and the capacity of the credited balances and the volume counter.
pub open spec fn redeem_order_check(
    p: PoolModel,
    o: Order,
    now: u64,
    tokens_amount: Tokens,
    escrow: Tokens,
    buyer_lamports: Lamports,
    buyer_tokens: Tokens,
    owner_lamports: Lamports,
) -> Result<(), ErrorCode> {
    let payment = tokens_amount.amount * o.token_price;
    if round_trading_check(p, now) is Err {
        round_trading_check(p, now)
    } else if tokens_amount.amount < 1 {
        Err(ErrorCode::BuyingTooFewTokens)
    } else if escrow.amount < tokens_amount.amount {
        Err(ErrorCode::InsufficientTokensInVault)
    } else if payment > u64::MAX {
        Err(ErrorCode::ArithmeticOverflow)
    } else if buyer_lamports.amount < payment {
        Err(ErrorCode::InsufficientPaymentToBuyTokens)
    } else if owner_lamports.amount + payment > u64::MAX
        || buyer_tokens.amount + tokens_amount.amount > u64::MAX
        || p.last_round_trading_amount + payment > u64::MAX {
        Err(ErrorCode::ArithmeticOverflow)
    } else {
        Ok(())
    }
}

/// A secondary purchase against one resale order: the buyer pays
/// `tokens_amount * order.token_price` to the order's owner and receives
/// `tokens_amount` tokens from the order's escrow; the order's remaining
/// inventory drops by the same amount and the payment is added to the
/// Trading round's settled volume.
///
/// The legs settle as one unit: on any rejection the sale, the order and
/// every balance are left untouched. A redemption that drains the order
/// finalizes it: the order leaves the registry, and afterwards its
/// inventory is zero exactly when it is no longer registered.
pub fn redeem_order(
    pool: &mut PoolAccount,
    order: &mut Order,
    now: u64,
    tokens_amount: Tokens,
    order_vault_tokens: &mut Tokens,
    buyer_lamports: &mut Lamports,
    buyer_tokens: &mut Tokens,
    order_owner_lamports: &mut Lamports,
) -> (r: Result<(), ErrorCode>)
    requires
        old(pool).wf(),
        old(pool)@.orders.contains(old(order).token_vault),
        old(order_vault_tokens).amount == old(order).token_amount.amount,
    ensures
        r == redeem_order_check(
            old(pool)@, *old(order), now, tokens_amount, *old(order_vault_tokens),
            *old(buyer_lamports), *old(buyer_tokens), *old(order_owner_lamports),
        ),
        r is Ok ==> ({
            let payment = tokens_amount.amount * old(order).token_price;
            let remaining = old(order).token_amount.amount - tokens_amount.amount;
            &&& *final(order) == (Order {
                token_amount: (Tokens { amount: remaining as u64 }),
                ..*old(order)
            })
            &&& final(order_vault_tokens).amount == remaining
            &&& final(buyer_lamports).amount == old(buyer_lamports).amount - payment
            &&& final(order_owner_lamports).amount == old(order_owner_lamports).amount + payment
            &&& final(buyer_tokens).amount == old(buyer_tokens).amount + tokens_amount.amount
            &&& final(pool)@ == (PoolModel {
                last_round_trading_amount: (old(pool)@.last_round_trading_amount + payment) as u64,
                orders: if remaining == 0 {
                    old(pool)@.orders.remove_value(old(order).token_vault)
                } else {
                    old(pool)@.orders
                },
                ..old(pool)@
            })
        }),
        // The order's inventory never grows, and it is zero exactly when
        // the order is no longer registered.
        r is Ok ==> final(order).token_amount.amount <= old(order).token_amount.amount,
        r is Ok ==> (final(order).token_amount.amount == 0
            <==> !final(pool)@.orders.contains(old(order).token_vault)),
        r is Err ==> *final(pool) == *old(pool)
            && *final(order) == *old(order)
            && *final(order_vault_tokens) == *old(order_vault_tokens)
            && *final(buyer_lamports) == *old(buyer_lamports)
            && *final(buyer_tokens) == *old(buyer_tokens)
            && *final(order_owner_lamports) == *old(order_owner_lamports),
        final(pool).wf(),
{
    if let Err(e) = round_trading(pool, now) {
        return Err(e);
    }
    if tokens_amount.amount < 1 {
        return Err(ErrorCode::BuyingTooFewTokens);
    }
    if order_vault_tokens.amount < tokens_amount.amount {
        return Err(ErrorCode::InsufficientTokensInVault);
    }
    let payment: Lamports = match tokens_amount.amount.checked_mul(order.token_price) {
        Some(v) => Lamports { amount: v },
        None => return Err(ErrorCode::ArithmeticOverflow),
    };
    if buyer_lamports.amount < payment.amount {
        return Err(ErrorCode::InsufficientPaymentToBuyTokens);
    }
    let credited_owner: Lamports = match (*order_owner_lamports).checked_add(payment) {
        Some(l) => l,
        None => return Err(ErrorCode::ArithmeticOverflow),
    };
    let credited_buyer: Tokens = match (*buyer_tokens).checked_add(tokens_amount) {
        Some(t) => t,
        None => return Err(ErrorCode::ArithmeticOverflow),
    };
    let new_volume: Lamports = match pool.last_round_trading_amount.checked_add(payment) {
        Some(l) => l,
        None => return Err(ErrorCode::ArithmeticOverflow),
    };

    // Payment leg, asset leg and bookkeeping, after every check has passed.
    *buyer_lamports = Lamports { amount: buyer_lamports.amount - payment.amount };
    *order_owner_lamports = credited_owner;
    *order_vault_tokens = Tokens { amount: order_vault_tokens.amount - tokens_amount.amount };
    *buyer_tokens = credited_buyer;
    order.token_amount = Tokens { amount: order.token_amount.amount - tokens_amount.amount };
    pool.last_round_trading_amount = new_volume;

    // A drained order is finalized: it leaves the registry and its escrow
    // is closed by the host.
    if order.token_amount.amount == 0 {
        proof {
            lemma_remove_registered_unique(old(pool)@.orders, order.token_vault);
        }
        // the order is registered, so removal cannot fail
        pool.remove_order(order.token_vault).unwrap();
    }
    Ok(())
}

/// Which error, if any, `close_order` rejects a closure with: a caller
/// other than the order's owner, an order that is no longer registered, or
/// a holding account that cannot take the escrowed inventory back.
pub open spec fn close_order_check(
    p: PoolModel,
    o: Order,
    caller: u64,
    escrow: Tokens,
    owner_tokens: Tokens,
) -> Result<(), ErrorCode> {
    if caller != o.owner {
        Err(ErrorCode::OnlyOwnerCanCloseOrder)
    } else if !p.orders.contains(o.token_vault) {
        Err(ErrorCode::OrderNotFound)
    } else if owner_tokens.amount + escrow.amount > u64::MAX {
        Err(ErrorCode::ArithmeticOverflow)
    } else {
        Ok(())
    }
}

/// Closes an order at its owner's request, in any round: returns all
/// escrowed inventory to the owner's holding account, unregisters the
/// order and empties it. A second closure of the same order fails with
/// `OrderNotFound`, since the order is no longer registered.
pub fn close_order(
    pool: &mut PoolAccount,
    order: &mut Order,
    caller: u64,
    order_vault_tokens: &mut Tokens,
    owner_token_vault: &mut Tokens,
) -> (r: Result<(), ErrorCode>)
    requires
        old(pool).wf(),
    ensures
        r == close_order_check(
            old(pool)@, *old(order), caller, *old(order_vault_tokens), *old(owner_token_vault),
        ),
        r is Ok ==> final(pool)@ == (PoolModel {
            orders: old(pool)@.orders.remove_value(old(order).token_vault),
            ..old(pool)@
        }),
        r is Ok ==> !final(pool)@.orders.contains(old(order).token_vault),
        r is Ok ==> *final(order) == (Order {
            token_amount: (Tokens { amount: 0 }),
            ..*old(order)
        }),
        r is Ok ==> final(order_vault_tokens).amount == 0
            && final(owner_token_vault).amount
                == old(owner_token_vault).amount + old(order_vault_tokens).amount,
        r is Err ==> *final(pool) == *old(pool)
            && *final(order) == *old(order)
            && *final(order_vault_tokens) == *old(order_vault_tokens)
            && *final(owner_token_vault) == *old(owner_token_vault),
        final(pool).wf(),
{
    if caller != order.owner {
        return Err(ErrorCode::OnlyOwnerCanCloseOrder);
    }
    if !pool.has_order(order.token_vault) {
        return Err(ErrorCode::OrderNotFound);
    }
    let returned: Tokens = match (*owner_token_vault).checked_add(*order_vault_tokens) {
        Some(t) => t,
        None => return Err(ErrorCode::ArithmeticOverflow),
    };
    proof {
        lemma_remove_registered_unique(old(pool)@.orders, order.token_vault);
    }
    // the order was found in the registry, so removal cannot fail
    pool.remove_order(order.token_vault).unwrap();
    *owner_token_vault = returned;
    *order_vault_tokens = Tokens { amount: 0 };
    order.token_amount = Tokens { amount: 0 };
    Ok(())
}

// ---------------------------------------------------------------------------
// Withdrawal and termination
// ---------------------------------------------------------------------------

/// Which error, if any, `withdraw_lamports` fails with: only an owner
/// account that cannot take the swept balance.
pub open spec fn withdraw_lamports_check(
    pool_lamports: Lamports,
    reserve: Lamports,
    owner_lamports: Lamports,
) -> Result<(), ErrorCode> {
    if owner_lamports.amount + (pool_lamports.amount - reserve.amount) > u64::MAX {
        Err(ErrorCode::ArithmeticOverflow)
    } else {
        Ok(())
    }
}

/// Sweeps the sale's accumulated payment balance above `reserve` — the
/// minimum the ledger requires the record to keep — to the owner.
///
/// The host verifies that the caller is the sale's owner before this runs,
/// and a live sale record always holds at least its reserve.
pub fn withdraw_lamports(
    pool: &PoolAccount,
    caller: u64,
    pool_lamports: &mut Lamports,
    reserve: Lamports,
    owner_lamports: &mut Lamports,
) -> (r: Result<(), ErrorCode>)
    requires
        caller == pool.owner,
        old(pool_lamports).amount >= reserve.amount,
    ensures
        r == withdraw_lamports_check(*old(pool_lamports), reserve, *old(owner_lamports)),
        r is Ok ==> final(pool_lamports).amount == reserve.amount
            && final(owner_lamports).amount
                == old(owner_lamports).amount
                    + (old(pool_lamports).amount - reserve.amount),
        r is Err ==> *final(pool_lamports) == *old(pool_lamports)
            && *final(owner_lamports) == *old(owner_lamports),
{
    let available: Lamports = Lamports { amount: pool_lamports.amount - reserve.amount };
    let credited: Lamports = match (*owner_lamports).checked_add(available) {
        Some(l) => l,
        None => return Err(ErrorCode::ArithmeticOverflow),
    };
    *pool_lamports = reserve;
    *owner_lamports = credited;
    Ok(())
}

/// Terminates the campaign: burns whatever unsold inventory the vault
/// still holds, after which the host closes the vault and the sale record.
///
/// Only allowed once the campaign's end time has passed and no open orders
/// remain; the host verifies that the caller is the sale's owner before
/// this runs. Termination is one-way: the record is closed, not switched
/// to a third round.
pub fn terminate(
    pool: &PoolAccount,
    caller: u64,
    now: u64,
    vault_tokens: &mut Tokens,
) -> (r: Result<(), ErrorCode>)
    requires
        caller == pool.owner,
    ensures
        r == can_terminate_check(pool@, now),
        r is Ok ==> final(vault_tokens).amount == 0,
        r is Err ==> *final(vault_tokens) == *old(vault_tokens),
{
    if let Err(e) = can_terminate(pool, now) {
        return Err(e);
    }
    *vault_tokens = Tokens { amount: 0 };
    Ok(())
}

} // verus!
