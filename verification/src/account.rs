use vstd::prelude::*;
use vstd::seq_lib::*;

use crate::currency::{Lamports, Tokens};
use crate::error::ErrorCode;
use crate::round::Round;

verus! {

/// The most orders the registry can hold at once. The sale record is a
/// fixed-shape structure, so the registry is capacity-bounded rather than
/// growable without limit.
pub const MAX_ORDERS: usize = 100;

/// The fixed-point scale of the price multiplier `coeff_a`: a stored value
/// of `a` stands for the real multiplier `a / PRICE_PRECISION`.
pub const PRICE_PRECISION: u64 = 10000;

/// The mathematical value of a sale record: the same fields with the order
/// registry abstracted to a sequence of escrow addresses in listing order.
#[verifier::ext_equal]
pub ghost struct PoolModel {
    pub owner: u64,
    pub selling_mint: u64,
    pub payment_mint: u64,
    pub vault_selling: u64,
    pub end_at: u64,
    pub buying_duration: u64,
    pub trading_duration: u64,
    pub token_price: u64,
    pub current_round: Round,
    pub round_start_at: u64,
    pub coeff_a: u64,
    pub coeff_b: u64,
    pub last_round_trading_amount: u64,
    pub orders: Seq<u64>,
}

/// The single source of truth for one campaign: timing windows, posted
/// price, current round, price-recalibration coefficients, and the bounded
/// registry of open resale orders.
///
/// Identities and account addresses are plain `u64` values; the host maps
/// them to real accounts.
#[verifier::ext_equal]
#[derive(Debug)]
pub struct PoolAccount {
    /// Identity permitted to terminate the sale and withdraw its proceeds.
    pub owner: u64,
    /// Asset class being sold.
    pub selling_mint: u64,
    /// Asset class accepted as payment.
    pub payment_mint: u64,
    /// Custodial account holding the unsold primary inventory.
    pub vault_selling: u64,
    /// Campaign end time (seconds); no round activity at or after it.
    pub end_at: u64,
    /// Fixed length of every Buying round, in seconds.
    pub buying_duration: u64,
    /// Fixed length of every Trading round, in seconds.
    pub trading_duration: u64,
    /// Current primary-sale price: payment units per minimal token unit.
    /// Never zero after initialization.
    pub token_price: u64,
    /// The phase the campaign is in right now.
    pub current_round: Round,
    /// Start time of the current round instance.
    pub round_start_at: u64,
    /// Price multiplier for recalibration, scaled by `PRICE_PRECISION`.
    pub coeff_a: u64,
    /// Additive price offset for recalibration.
    pub coeff_b: u64,
    /// Total payment volume settled during the current or most recent
    /// Trading round; reset to zero when a Trading round starts.
    pub last_round_trading_amount: Lamports,
    /// Escrow addresses of the open orders, in listing order.
    pub orders: Vec<u64>,
}

/// One seller's resale listing, backed by inventory escrowed at
/// `token_vault`.
#[derive(Clone, Copy, Debug, PartialEq, Eq, Structural)]
pub struct Order {
    /// The seller: receives the proceeds and any leftover inventory.
    pub owner: u64,
    /// Time the order was created.
    pub created_at: u64,
    /// Remaining escrowed inventory; non-increasing while the order is open.
    pub token_amount: Tokens,
    /// Resale price fixed by the seller at listing time.
    pub token_price: u64,
    /// Custodial account holding the listed inventory. Also the reference
    /// under which the order is registered in the sale.
    pub token_vault: u64,
}

impl View for PoolAccount {
    type V = PoolModel;

    open spec fn view(&self) -> PoolModel {
        PoolModel {
            owner: self.owner,
            selling_mint: self.selling_mint,
            payment_mint: self.payment_mint,
            vault_selling: self.vault_selling,
            end_at: self.end_at,
            buying_duration: self.buying_duration,
            trading_duration: self.trading_duration,
            token_price: self.token_price,
            current_round: self.current_round,
            round_start_at: self.round_start_at,
            coeff_a: self.coeff_a,
            coeff_b: self.coeff_b,
            last_round_trading_amount: self.last_round_trading_amount.amount,
            orders: self.orders@,
        }
    }
}

/// Well-formedness of a sale record. Initialization establishes it and
/// every operation preserves it: the price is never zero, the registry
/// stays within its bound and holds each escrow address at most once
/// (escrow derivation yields unique addresses), and the current round
/// started no later than the campaign ends.
pub open spec fn pool_wf(p: PoolModel) -> bool {
    &&& p.token_price != 0
    &&& p.orders.len() <= MAX_ORDERS
    &&& p.orders.no_duplicates()
    &&& p.round_start_at <= p.end_at
}

impl PoolAccount {
    /// Shorthand for well-formedness of this record's value.
    pub open spec fn wf(&self) -> bool {
        pool_wf(self@)
    }

    /// The payment due for `tokens` at this sale's posted price, or `None`
    /// when the product does not fit in a machine word.
    pub fn try_tokens_to_lamports(&self, tokens: Tokens) -> (r: Option<Lamports>)
        ensures
            r is Some <==> tokens.amount * self.token_price <= u64::MAX,
            r is Some ==> r->0.amount == tokens.amount * self.token_price,
    {
        match tokens.amount.checked_mul(self.token_price) {
            Some(v) => Some(Lamports { amount: v }),
            None => None,
        }
    }

    /// How many whole tokens `lamports` buys at this sale's posted price
    /// (rounding down), or `None` when the price is zero.
    pub fn try_lamports_to_tokens(&self, lamports: Lamports) -> (r: Option<Tokens>)
        ensures
            r is Some <==> self.token_price != 0,
            r is Some ==> r->0.amount == lamports.amount / self.token_price,
    {
        match lamports.amount.checked_div(self.token_price) {
            Some(v) => Some(Tokens { amount: v }),
            None => None,
        }
    }

    /// Whether an order with this escrow address is registered.
    pub fn has_order(&self, token_vault: u64) -> (r: bool)
        ensures
            r == self@.orders.contains(token_vault),
    {
        let mut i: usize = 0;
        while i < self.orders.len()
            invariant
                i <= self.orders@.len(),
                forall|j: int| 0 <= j < i ==> self.orders@[j] != token_vault,
            decreases self.orders@.len() - i,
        {
            if self.orders[i] == token_vault {
                return true;
            }
            i += 1;
        }
        false
    }

    /// Registers an order's escrow address at the end of the listing order.
    ///
    /// Fails with `RegistryFull`, changing nothing, when the registry is at
    /// capacity. The address must be fresh: escrow derivation never yields
    /// an address that is already registered.
    pub fn add_order(&mut self, token_vault: u64) -> (r: Result<(), ErrorCode>)
        requires
            !old(self)@.orders.contains(token_vault),
        ensures
            r is Ok <==> old(self)@.orders.len() < MAX_ORDERS,
            r is Ok ==> final(self)@ == (PoolModel {
                orders: old(self)@.orders.push(token_vault),
                ..old(self)@
            }),
            r is Err ==> r == Err::<(), ErrorCode>(ErrorCode::RegistryFull)
                && *final(self) == *old(self),
            old(self)@.orders.no_duplicates() ==> final(self)@.orders.no_duplicates(),
    {
        if self.orders.len() >= MAX_ORDERS {
            return Err(ErrorCode::RegistryFull);
        }
        self.orders.push(token_vault);
        proof {
            assert(self@ =~= (PoolModel {
                orders: old(self)@.orders.push(token_vault),
                ..old(self)@
            }));
            if old(self)@.orders.no_duplicates() {
                lemma_push_fresh_keeps_no_duplicates(old(self)@.orders, token_vault);
            }
        }
        Ok(())
    }

    /// Unregisters the first (and, in a well-formed sale, only) occurrence
    /// of an order's escrow address, keeping the rest in listing order.
    ///
    /// Fails with `OrderNotFound`, changing nothing, when the address is
    /// not registered.
    pub fn remove_order(&mut self, token_vault: u64) -> (r: Result<(), ErrorCode>)
        ensures
            r is Ok <==> old(self)@.orders.contains(token_vault),
            r is Ok ==> final(self)@ == (PoolModel {
                orders: old(self)@.orders.remove_value(token_vault),
                ..old(self)@
            }),
            r is Err ==> r == Err::<(), ErrorCode>(ErrorCode::OrderNotFound)
                && *final(self) == *old(self),
    {
        let ghost orders = self@.orders;
        let mut i: usize = 0;
        while i < self.orders.len()
            invariant
                *self == *old(self),
                orders == self.orders@,
                i <= orders.len(),
                forall|j: int| 0 <= j < i ==> orders[j] != token_vault,
            decreases orders.len() - i,
        {
            if self.orders[i] == token_vault {
                proof {
                    assert(orders[i as int] == token_vault);
                    assert(orders.contains(token_vault));
                    orders.index_of_first_ensures(token_vault);
                    assert(orders.index_of_first(token_vault) == Some(i as int));
                }
                self.orders.remove(i);
                assert(self@ =~= (PoolModel {
                    orders: orders.remove_value(token_vault),
                    ..old(self)@
                }));
                return Ok(());
            }
            i += 1;
        }
        assert(!orders.contains(token_vault));
        Err(ErrorCode::OrderNotFound)
    }
}

/// Pushing an address that a duplicate-free registry does not yet hold
/// keeps it duplicate-free.
pub proof fn lemma_push_fresh_keeps_no_duplicates(s: Seq<u64>, v: u64)
    requires
        s.no_duplicates(),
        !s.contains(v),
    ensures
        s.push(v).no_duplicates(),
{
    assert forall|i: int, j: int|
        0 <= i < s.push(v).len() && 0 <= j < s.push(v).len() && i != j
        implies s.push(v)[i] != s.push(v)[j] by {
        if i < s.len() && j < s.len() {
        } else if i < s.len() {
            assert(s[i] == s.push(v)[i]);
        } else if j < s.len() {
            assert(s[j] == s.push(v)[j]);
        }
    }
}

/// What removing a registered address does to a duplicate-free registry:
/// one entry shorter, the address gone, every other address kept, still
/// duplicate-free, and the remaining entries still in listing order.
pub proof fn lemma_remove_registered_unique(s: Seq<u64>, v: u64)
    requires
        s.no_duplicates(),
        s.contains(v),
    ensures
        s.remove_value(v).len() == s.len() - 1,
        !s.remove_value(v).contains(v),
        forall|x: u64| x != v ==> (s.remove_value(v).contains(x) <==> s.contains(x)),
        s.remove_value(v).no_duplicates(),
{
    s.index_of_first_ensures(v);
    let i: int = s.index_of_first(v)->0;
    s.remove_ensures(i);
    let t = s.remove_value(v);
    assert forall|k: int| 0 <= k < t.len() implies t[k] != v by {
        if k < i {
            assert(t[k] == s[k]);
        } else {
            assert(t[k] == s[k + 1]);
        }
    }
    assert(!t.contains(v));
    assert forall|x: u64| x != v && s.contains(x) implies t.contains(x) by {
        let j: int = choose|j: int| 0 <= j < s.len() && s[j] == x;
        if j < i {
            assert(t[j] == x);
        } else {
            assert(s[j] == x && j != i);
            assert(t[j - 1] == x);
        }
    }
    assert forall|x: u64| x != v && t.contains(x) implies s.contains(x) by {
        let k: int = choose|k: int| 0 <= k < t.len() && t[k] == x;
        if k < i {
            assert(s[k] == x);
        } else {
            assert(s[k + 1] == x);
        }
    }
    assert forall|a: int, b: int|
        0 <= a < t.len() && 0 <= b < t.len() && a != b
        implies t[a] != t[b] by {
        let sa: int = if a < i { a } else { a + 1 };
        let sb: int = if b < i { b } else { b + 1 };
        assert(t[a] == s[sa] && t[b] == s[sb] && sa != sb);
    }
}

} // verus!
