use vstd::prelude::*;

verus! {

/// Every way an operation can be rejected. Each failure leaves the sale,
/// the orders and all balances exactly as they were before the call.
#[derive(Clone, Copy, Debug, PartialEq, Eq, Structural)]
pub enum ErrorCode {
    /// An operation that needs an active Buying round ran during Trading.
    NotBuyingRound,
    /// An operation that needs an active Trading round ran during Buying.
    NotTradingRound,
    /// The current Buying round's window has already elapsed.
    BuyingOver,
    /// The current Trading round's window has already elapsed.
    TradingOver,
    /// A switch to Buying was asked for while Buying is already current.
    AlreadyBuying,
    /// A switch to Trading was asked for while Trading is already current.
    AlreadyTrading,
    /// A switch to Trading was asked for before the Buying window ran out.
    BuyingWindowNotElapsed,
    /// A switch to Buying was asked for before the Trading window ran out.
    TradingWindowNotElapsed,
    /// A round switch was asked for at or after the campaign's end time.
    CampaignEnded,
    /// Termination was asked for before the campaign's end time.
    CampaignNotOver,
    /// The vault or an order escrow holds fewer tokens than requested.
    InsufficientTokensInVault,
    /// The buyer's payment balance does not cover the payment due.
    InsufficientPaymentToBuyTokens,
    /// An order must list at least one token.
    SellingTooFewTokens,
    /// A redemption must take at least one token.
    BuyingTooFewTokens,
    /// The amount offered for sale exceeds the funding account's balance.
    NotEnoughTokensForSale,
    /// A token price of zero was supplied or computed.
    ZeroPrice,
    /// The order registry already holds its maximum number of orders.
    RegistryFull,
    /// The referenced order is not in the sale's registry.
    OrderNotFound,
    /// Someone other than the order's owner tried to close it.
    OnlyOwnerCanCloseOrder,
    /// A checked arithmetic step overflowed.
    ArithmeticOverflow,
    /// Termination was asked for while open orders remain.
    ActiveOrdersRemain,
    /// The first round would start before the campaign is created.
    FirstRoundAlreadyStarted,
    /// The campaign would end before one full Buying-plus-Trading cycle.
    EndsBeforeFullCircle,
}

} // verus!
