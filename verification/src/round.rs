use vstd::prelude::*;

verus! {

/// The two operative phases of a campaign. A campaign starts in `Buying`
/// and alternates between the two via the explicit switch operations;
/// termination closes the campaign record instead of adding a third phase.
#[derive(Clone, Copy, Debug, PartialEq, Eq, Structural)]
pub enum Round {
    /// Buyers purchase from the custodial vault at the posted price.
    Buying,
    /// Sellers list escrowed inventory; buyers purchase from those listings.
    Trading,
}

} // verus!
