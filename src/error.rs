use vstd::prelude::*;

verus! {

/// Why a transition was rejected. A rejected transition changes nothing.
#[derive(Clone, Copy, Debug, PartialEq, Eq, Structural)]
pub enum Error {
    /// The asset does not exist, or no identifier is left for a new one.
    InvalidKittyId,
    /// Breeding was asked of one asset with itself.
    SameKittyId,
    /// The caller does not own the asset.
    NotOwner,
    /// The asset is already listed for sale.
    AlreadyOnSale,
    /// The asset is not listed for sale.
    NotOnSale,
    /// The buyer already owns the asset.
    AlreadyOwned,
    /// The identifier space is exhausted.
    OutOfIds,
    /// The payer's balance does not cover the amount.
    InsufficientFunds,
    /// The payee's balance would exceed the largest representable amount.
    BalanceOverflow,
}

} // verus!
