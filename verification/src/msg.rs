use vstd::prelude::*;

verus! {

/// Setup request: the admin address; when absent, the caller becomes admin.
#[derive(Clone, Debug, PartialEq, Eq)]
pub struct InstantiateMsg {
    pub admin: Option<String>,
}

/// The action requests a caller can submit.
#[derive(Clone, Debug, PartialEq, Eq)]
pub enum ExecuteMsg {
    Start {},
    Claim {},
    /// Buys a new asset so it starts producing income.
    Unlock { name: String },
    /// Buys further levels of an owned asset.
    Upgrade { name: String, num_of_times: Option<u64> },
    /// Admin only: deletes a player record.
    RemovePlayer { address: String },
    /// Admin only: credits points to an existing player.
    AddFunds { address: String, amount: u128 },
}

/// The read requests.
#[derive(Clone, Debug, PartialEq, Eq)]
pub enum QueryMsg {
    Info { address: String },
    ContractInfo {},
    Upgrades {},
    PointsPerBlock { address: String },
}

/// The three fixed production asset types of the game.
#[derive(Clone, Copy, Debug, PartialEq, Eq)]
pub enum AssetTypes {
    Crops,
    Animals,
    Workers,
}

impl AssetTypes {
    /// The storage key under which this asset type is kept.
    pub open spec fn spec_name(self) -> Seq<char> {
        match self {
            AssetTypes::Crops => "crops"@,
            AssetTypes::Animals => "animals"@,
            AssetTypes::Workers => "workers"@,
        }
    }

    pub fn as_str(&self) -> (r: &'static str)
        ensures
            r@ == self.spec_name(),
    {
        match self {
            AssetTypes::Crops => "crops",
            AssetTypes::Animals => "animals",
            AssetTypes::Workers => "workers",
        }
    }
}

/// One production asset: ownership flag, level, and its growth and cost curves.
#[derive(Clone, Copy, Debug, PartialEq, Eq)]
pub struct Asset {
    /// Ownership flag: 0 while locked, 1 once unlocked.
    pub amount: u128,
    /// Upgrade count; starts at 1 and grows by the number of bought steps.
    pub level: u128,
    /// One-time price of turning the ownership flag on.
    pub unlock_cost: u128,
    /// Points produced per block while owned.
    pub growth_rate: u128,
    /// Divisor of the compounding growth step: each upgrade adds growth_rate / growth_rate_inc.
    pub growth_rate_inc: u128,
    /// Price of the next upgrade step.
    pub cost: u128,
    /// Divisor of the compounding cost step: each upgrade adds cost / cost_inc.
    pub cost_inc: u128,
}

impl Asset {
    /// Well-formedness: the ownership flag is binary, the level is at least one,
    /// and both compounding divisors are nonzero so the upgrade steps are defined.
    pub open spec fn wf(self) -> bool {
        &&& self.amount <= 1
        &&& self.level >= 1
        &&& self.growth_rate_inc >= 1
        &&& self.cost_inc >= 1
    }

    /// Per-block production of this asset: its growth rate while owned, zero while locked.
    pub open spec fn rate(self) -> int {
        if self.amount == 1 {
            self.growth_rate as int
        } else {
            0
        }
    }

    /// Runs the well-formedness test, for callers outside verified code.
    pub fn is_well_formed(&self) -> (r: bool)
        ensures
            r == self.wf(),
    {
        self.amount <= 1 && self.level >= 1 && self.growth_rate_inc >= 1 && self.cost_inc >= 1
    }
}

/// A player's three asset instances, one per asset type, keyed as the
/// template store keys them; field order follows the ascending key order
/// "animals" < "crops" < "workers".
#[derive(Clone, Copy, Debug, PartialEq, Eq)]
pub struct PlayerAssets {
    pub animals: Asset,
    pub crops: Asset,
    pub workers: Asset,
}

impl PlayerAssets {
    /// The asset stored under the given type.
    pub open spec fn spec_get(self, t: AssetTypes) -> Asset {
        match t {
            AssetTypes::Crops => self.crops,
            AssetTypes::Animals => self.animals,
            AssetTypes::Workers => self.workers,
        }
    }

    /// These assets with the entry of the given type replaced.
    pub open spec fn spec_set(self, t: AssetTypes, a: Asset) -> PlayerAssets {
        match t {
            AssetTypes::Crops => PlayerAssets { crops: a, ..self },
            AssetTypes::Animals => PlayerAssets { animals: a, ..self },
            AssetTypes::Workers => PlayerAssets { workers: a, ..self },
        }
    }

    /// Sum of the three growth rates, owned or not.
    pub open spec fn rate_bound(self) -> int {
        self.animals.growth_rate + self.crops.growth_rate + self.workers.growth_rate
    }

    /// Total per-block production: the sum of the owned assets' growth rates.
    pub open spec fn rate_total(self) -> int {
        self.animals.rate() + self.crops.rate() + self.workers.rate()
    }

    /// Well-formedness: each asset is well formed, and the growth rates are
    /// jointly small enough that a production-rate total cannot overflow.
    pub open spec fn wf(self) -> bool {
        &&& self.animals.wf()
        &&& self.crops.wf()
        &&& self.workers.wf()
        &&& self.rate_bound() <= u128::MAX
    }

    /// Runs the well-formedness test, for callers outside verified code.
    pub fn is_well_formed(&self) -> (r: bool)
        ensures
            r == self.wf(),
    {
        if !(self.animals.is_well_formed() && self.crops.is_well_formed()
            && self.workers.is_well_formed()) {
            return false;
        }
        match self.animals.growth_rate.checked_add(self.crops.growth_rate) {
            None => false,
            Some(two) => match two.checked_add(self.workers.growth_rate) {
                None => false,
                Some(_) => true,
            },
        }
    }

    pub fn get(&self, t: &AssetTypes) -> (r: &Asset)
        ensures
            *r == self.spec_get(*t),
    {
        match t {
            AssetTypes::Crops => &self.crops,
            AssetTypes::Animals => &self.animals,
            AssetTypes::Workers => &self.workers,
        }
    }

    pub fn set(&mut self, t: &AssetTypes, a: Asset)
        ensures
            *final(self) == old(self).spec_set(*t, a),
    {
        match t {
            AssetTypes::Crops => self.crops = a,
            AssetTypes::Animals => self.animals = a,
            AssetTypes::Workers => self.workers = a,
        }
    }
}

/// One player's persistent game record.
#[derive(Clone, Copy, Debug, PartialEq, Eq)]
pub struct Player {
    /// Block height at which the record was created.
    pub start_time: u64,
    /// Accrued, unclaimed-adjusted resource balance.
    pub current_points: u128,
    /// Block height of the last accrual application.
    pub last_claim_height: u64,
    /// The player's own asset instances, one per asset type.
    pub upgrades: PlayerAssets,
}

impl Player {
    pub open spec fn wf(self) -> bool {
        self.upgrades.wf()
    }

    /// Runs the well-formedness test, for callers outside verified code.
    pub fn is_well_formed(&self) -> (r: bool)
        ensures
            r == self.wf(),
    {
        self.upgrades.is_well_formed()
    }
}

/// Per-block production of each asset type, in ascending key order.
#[derive(Clone, Copy, Debug, PartialEq, Eq)]
pub struct PerAssetPoints {
    pub animals: u128,
    pub crops: u128,
    pub workers: u128,
}

/// A player's per-block production rate and its breakdown by asset type.
#[derive(Clone, Copy, Debug, PartialEq, Eq)]
pub struct PointsPerBlock {
    pub total: u128,
    pub per_asset: PerAssetPoints,
}

/// The asset-type names of the template store, in ascending key order.
#[derive(Clone, Debug, PartialEq, Eq)]
pub struct Upgrades {
    pub values: Vec<String>,
}

/// The singleton contract record: the address allowed to run admin actions.
#[derive(Clone, Debug, PartialEq, Eq)]
pub struct ContractInformationResponse {
    pub admin: String,
}

} // verus!
