use vstd::prelude::*;
use vstd::arithmetic::mul::lemma_mul_basics;
use crate::contract::initial_templates;
use crate::engine::{
    cost_after, growth_after, lemma_affordable_boundary, lemma_affordable_le, lemma_cost_mono,
    lemma_growth_mono, paid_after, spec_asset_type, spec_claim, spec_new_player, spec_unlock,
    spec_upgrade,
};
use crate::error::ContractError;
use crate::msg::{AssetTypes, Player, PlayerAssets};

verus! {

/// A fresh player seeded from the setup templates owns exactly the three
/// fixed assets: crops already unlocked, animals and workers still locked,
/// with no points and both heights at the creation height.
pub proof fn lemma_fresh_player_assets(templates: PlayerAssets, height: u64)
    requires
        templates == initial_templates(),
    ensures
        spec_new_player(templates, height).upgrades.crops.amount == 1,
        spec_new_player(templates, height).upgrades.animals.amount == 0,
        spec_new_player(templates, height).upgrades.workers.amount == 0,
        spec_new_player(templates, height).current_points == 0,
        spec_new_player(templates, height).start_time == height,
        spec_new_player(templates, height).last_claim_height == height,
{
}

/// Claiming a second time at the same height settles to the very same
/// record: the second claim gains zero points.
pub proof fn lemma_claim_idempotent(p: Player, height: u64, once: Player, twice: Player)
    requires
        spec_claim(p, height) == Ok::<Player, ContractError>(once),
        spec_claim(once, height) == Ok::<Player, ContractError>(twice),
    ensures
        twice == once,
{
    lemma_mul_basics(once.upgrades.rate_total());
}

/// Between two claims with nothing else in between, points grow linearly:
/// the second claim adds the standing rate times the blocks elapsed between
/// the two heights, and the rate itself is unchanged by claiming.
pub proof fn lemma_claim_linear(p: Player, h1: u64, h2: u64, first: Player, second: Player)
    requires
        h1 <= h2,
        spec_claim(p, h1) == Ok::<Player, ContractError>(first),
        spec_claim(first, h2) == Ok::<Player, ContractError>(second),
    ensures
        second.current_points == first.current_points + first.upgrades.rate_total() * (h2 - h1),
        first.upgrades.rate_total() == p.upgrades.rate_total(),
{
}

/// Unlocking is a one-time transition of the ownership flag: the record a
/// successful unlock returns has the flag on and exactly the unlock cost
/// deducted, and unlocking the same asset again fails as already purchased.
pub proof fn lemma_unlock_once(p: Player, name: String, opened: Player)
    requires
        spec_unlock(p, name) == Ok::<Player, ContractError>(opened),
    ensures
        spec_unlock(opened, name) == Err::<Player, ContractError>(
            ContractError::AssetAlreadyPurchased { name },
        ),
        forall|t: AssetTypes| spec_asset_type(name@) == Some(t)
            ==> opened.upgrades.spec_get(t).amount == 1 && opened.current_points
                == p.current_points - p.upgrades.spec_get(t).unlock_cost,
{
    match spec_asset_type(name@) {
        None => {
        },
        Some(t) => {
            match t {
                AssetTypes::Crops => {
                },
                AssetTypes::Animals => {
                },
                AssetTypes::Workers => {
                },
            }
        },
    }
}

/// Over a player's lifetime the curves only rise: a committed upgrade never
/// lowers the asset's growth rate or step price, raises its level by exactly
/// the bought steps, keeps its ownership flag, and touches no other asset.
pub proof fn lemma_upgrade_monotone(p: Player, name: String, n: u64, q: Player)
    requires
        p.wf(),
        spec_upgrade(p, name, n) == Ok::<Player, ContractError>(q),
    ensures
        forall|t: AssetTypes| spec_asset_type(name@) == Some(t) ==> {
            &&& q.upgrades.spec_get(t).growth_rate >= p.upgrades.spec_get(t).growth_rate
            &&& q.upgrades.spec_get(t).cost >= p.upgrades.spec_get(t).cost
            &&& q.upgrades.spec_get(t).level == p.upgrades.spec_get(t).level + n
            &&& q.upgrades.spec_get(t).amount == p.upgrades.spec_get(t).amount
        },
        forall|t2: AssetTypes| spec_asset_type(name@) != Some(t2) ==> q.upgrades.spec_get(t2)
            == p.upgrades.spec_get(t2),
{
    match spec_asset_type(name@) {
        None => {
        },
        Some(t) => {
            let a = p.upgrades.spec_get(t);
            lemma_growth_mono(a, 0, n as nat);
            lemma_cost_mono(a, 0, n as nat);
            assert(growth_after(a, 0) == a.growth_rate);
            assert(cost_after(a, 0) == a.cost);
        },
    }
}

/// A rejected upgrade reports the full requested walk's summed price as
/// required, and a tight affordability boundary: the balance covers the
/// cumulative price of the reported step count, and the very next step's
/// cumulative price already exceeds it.
pub proof fn lemma_upgrade_boundary(
    p: Player,
    name: String,
    n: u64,
    received: u128,
    required: u128,
    m: u64,
)
    requires
        spec_upgrade(p, name, n) == Err::<Player, ContractError>(
            ContractError::NotEnoughPoints { received, required, max_amount: Some(m) },
        ),
    ensures
        received == p.current_points,
        m < n,
        forall|t: AssetTypes| spec_asset_type(name@) == Some(t) ==> {
            &&& paid_after(p.upgrades.spec_get(t), m as nat) <= p.current_points
            &&& paid_after(p.upgrades.spec_get(t), (m + 1) as nat) > p.current_points
            &&& required == paid_after(p.upgrades.spec_get(t), n as nat)
        },
{
    match spec_asset_type(name@) {
        None => {
        },
        Some(t) => {
            let a = p.upgrades.spec_get(t);
            lemma_affordable_le(a, p.current_points, n as nat);
            lemma_affordable_boundary(a, p.current_points, n as nat);
        },
    }
}

} // verus!
