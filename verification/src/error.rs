use vstd::prelude::*;

verus! {

/// Every way an action can fail. A failed action never writes to the store.
#[derive(Clone, Debug, PartialEq, Eq)]
pub enum ContractError {
    /// An admin-only action was invoked by another address.
    Unauthorized {},
    /// `start` was called for an address that already has a record.
    PlayerAlreadyExists { address: String },
    /// The action needs a player record and none exists for the address.
    PlayerDoesNotExist { address: String },
    /// The named asset type is not in the player's map.
    AssetDoesNotExist { name: String },
    /// The asset exists but is still locked, so it cannot be upgraded.
    AssetNotPurchased { name: String },
    /// The asset is already owned, so it cannot be unlocked again.
    AssetAlreadyPurchased { name: String },
    /// The balance does not cover the price. `max_amount` carries, for
    /// upgrades, the number of steps that were affordable before the
    /// cumulative cost first exceeded the balance; unlocking is binary,
    /// so there it is `None`.
    NotEnoughPoints { received: u128, required: u128, max_amount: Option<u64> },
    /// A checked arithmetic operation would have wrapped.
    ArithmeticOverflow {},
}

} // verus!
