use vstd::prelude::*;

verus! {

/// An amount of the selling asset, counted in its minimal units.
///
/// `Tokens` and `Lamports` wrap the same machine word but are distinct
/// types, so a token quantity can never be confused with a payment
/// quantity in a signature or a field.
#[derive(Clone, Copy, Debug, PartialEq, Eq, Structural)]
pub struct Tokens {
    pub amount: u64,
}

/// An amount of the payment currency, counted in its minimal units.
#[derive(Clone, Copy, Debug, PartialEq, Eq, Structural)]
pub struct Lamports {
    pub amount: u64,
}

impl Tokens {
    pub fn new(amount: u64) -> (r: Tokens)
        ensures
            r.amount == amount,
    {
        Tokens { amount }
    }

    /// The sum of two token amounts, or `None` when it would not fit.
    pub fn checked_add(self, other: Tokens) -> (r: Option<Tokens>)
        ensures
            r is Some <==> self.amount + other.amount <= u64::MAX,
            r is Some ==> r->0.amount == self.amount + other.amount,
    {
        match self.amount.checked_add(other.amount) {
            Some(v) => Some(Tokens { amount: v }),
            None => None,
        }
    }

    /// The difference of two token amounts, or `None` when it would be
    /// negative.
    pub fn checked_sub(self, other: Tokens) -> (r: Option<Tokens>)
        ensures
            r is Some <==> other.amount <= self.amount,
            r is Some ==> r->0.amount == self.amount - other.amount,
    {
        match self.amount.checked_sub(other.amount) {
            Some(v) => Some(Tokens { amount: v }),
            None => None,
        }
    }
}

impl Lamports {
    pub fn new(amount: u64) -> (r: Lamports)
        ensures
            r.amount == amount,
    {
        Lamports { amount }
    }

    /// The sum of two payment amounts, or `None` when it would not fit.
    pub fn checked_add(self, other: Lamports) -> (r: Option<Lamports>)
        ensures
            r is Some <==> self.amount + other.amount <= u64::MAX,
            r is Some ==> r->0.amount == self.amount + other.amount,
    {
        match self.amount.checked_add(other.amount) {
            Some(v) => Some(Lamports { amount: v }),
            None => None,
        }
    }

    /// The difference of two payment amounts, or `None` when it would be
    /// negative.
    pub fn checked_sub(self, other: Lamports) -> (r: Option<Lamports>)
        ensures
            r is Some <==> other.amount <= self.amount,
            r is Some ==> r->0.amount == self.amount - other.amount,
    {
        match self.amount.checked_sub(other.amount) {
            Some(v) => Some(Lamports { amount: v }),
            None => None,
        }
    }
}

} // verus!
