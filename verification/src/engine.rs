use vstd::prelude::*;
use vstd::string::StringExecFns;
use vstd::arithmetic::div_mod::lemma_div_pos_is_pos;
use vstd::arithmetic::mul::lemma_mul_basics;
use vstd::arithmetic::mul::lemma_mul_inequality;
use crate::error::ContractError;
use crate::msg::{Asset, AssetTypes, PerAssetPoints, Player, PlayerAssets, PointsPerBlock};

verus! {

// ---------------------------------------------------------------------------
// Accrual
// ---------------------------------------------------------------------------

/// The balance a claim at the given height settles: the old balance plus the
/// per-block production times the number of blocks since the last claim.
pub open spec fn claim_points(p: Player, height: u64) -> int {
    p.current_points + p.upgrades.rate_total() * (height - p.last_claim_height)
}

/// What a claim returns: the settled record, or an arithmetic error when the
/// settled balance would not fit.
pub open spec fn spec_claim(p: Player, height: u64) -> Result<Player, ContractError> {
    if claim_points(p, height) > u128::MAX {
        Err(ContractError::ArithmeticOverflow {})
    } else {
        Ok(Player {
            start_time: p.start_time,
            current_points: claim_points(p, height) as u128,
            last_claim_height: height,
            upgrades: p.upgrades,
        })
    }
}

/// A player's per-block production rate and its per-asset breakdown.
/// Each owned asset contributes its growth rate; locked assets contribute zero.
pub fn calculate_per_block_rewards(player: &Player) -> (r: PointsPerBlock)
    requires
        player.wf(),
    ensures
        r.per_asset.animals == player.upgrades.animals.rate(),
        r.per_asset.crops == player.upgrades.crops.rate(),
        r.per_asset.workers == player.upgrades.workers.rate(),
        r.total == player.upgrades.rate_total(),
{
    proof {
        lemma_mul_basics(player.upgrades.animals.growth_rate as int);
        lemma_mul_basics(player.upgrades.crops.growth_rate as int);
        lemma_mul_basics(player.upgrades.workers.growth_rate as int);
        lemma_mul_inequality(
            player.upgrades.animals.amount as int,
            1,
            player.upgrades.animals.growth_rate as int,
        );
        lemma_mul_inequality(
            player.upgrades.crops.amount as int,
            1,
            player.upgrades.crops.growth_rate as int,
        );
        lemma_mul_inequality(
            player.upgrades.workers.amount as int,
            1,
            player.upgrades.workers.growth_rate as int,
        );
    }
    let animals = player.upgrades.animals.amount * player.upgrades.animals.growth_rate;
    let crops = player.upgrades.crops.amount * player.upgrades.crops.growth_rate;
    let workers = player.upgrades.workers.amount * player.upgrades.workers.growth_rate;
    PointsPerBlock {
        total: animals + crops + workers,
        per_asset: PerAssetPoints { animals, crops, workers },
    }
}

/// Settles the accrued production into the balance and stamps the height.
/// The host clock is monotone, so the height is never below the last claim.
/// Claiming twice at one height gains nothing the second time.
pub fn claim_player(player: &Player, height: u64) -> (r: Result<Player, ContractError>)
    requires
        player.wf(),
        player.last_claim_height <= height,
    ensures
        r == spec_claim(*player, height),
        r matches Ok(q) ==> q.wf(),
{
    let rate = calculate_per_block_rewards(player).total;
    let elapsed = height - player.last_claim_height;
    match rate.checked_mul(elapsed as u128) {
        None => Err(ContractError::ArithmeticOverflow {}),
        Some(gained) => match player.current_points.checked_add(gained) {
            None => Err(ContractError::ArithmeticOverflow {}),
            Some(settled) => Ok(
                Player {
                    start_time: player.start_time,
                    current_points: settled,
                    last_claim_height: height,
                    upgrades: player.upgrades,
                },
            ),
        },
    }
}

// ---------------------------------------------------------------------------
// Bootstrap
// ---------------------------------------------------------------------------

/// The record a fresh player starts with: no points, both heights at the
/// creation height, and a private copy of the seeded asset templates.
pub open spec fn spec_new_player(templates: PlayerAssets, height: u64) -> Player {
    Player {
        start_time: height,
        current_points: 0,
        last_claim_height: height,
        upgrades: templates,
    }
}

pub fn new_player(templates: &PlayerAssets, height: u64) -> (p: Player)
    ensures
        p == spec_new_player(*templates, height),
{
    Player {
        start_time: height,
        current_points: 0,
        last_claim_height: height,
        upgrades: *templates,
    }
}

// ---------------------------------------------------------------------------
// Name resolution
// ---------------------------------------------------------------------------

/// The asset type stored under the given name, if any.
pub open spec fn spec_asset_type(name: Seq<char>) -> Option<AssetTypes> {
    if name == "crops"@ {
        Some(AssetTypes::Crops)
    } else if name == "animals"@ {
        Some(AssetTypes::Animals)
    } else if name == "workers"@ {
        Some(AssetTypes::Workers)
    } else {
        None
    }
}

fn resolve_asset_type(name: &String) -> (r: Option<AssetTypes>)
    ensures
        r == spec_asset_type(name@),
{
    if *name == String::from_str(AssetTypes::Crops.as_str()) {
        Some(AssetTypes::Crops)
    } else if *name == String::from_str(AssetTypes::Animals.as_str()) {
        Some(AssetTypes::Animals)
    } else if *name == String::from_str(AssetTypes::Workers.as_str()) {
        Some(AssetTypes::Workers)
    } else {
        None
    }
}

// ---------------------------------------------------------------------------
// Upgrade simulation, as mathematics
// ---------------------------------------------------------------------------

/// One compounding step: the value grows by its quotient under the divisor.
pub open spec fn grow(v: int, inc: int) -> int {
    v + v / inc
}

/// The growth rate after `i` compounding upgrade steps.
pub open spec fn growth_after(a: Asset, i: nat) -> int
    decreases i,
{
    if i == 0 {
        a.growth_rate as int
    } else {
        grow(growth_after(a, (i - 1) as nat), a.growth_rate_inc as int)
    }
}

/// The step price after `i` compounding upgrade steps.
pub open spec fn cost_after(a: Asset, i: nat) -> int
    decreases i,
{
    if i == 0 {
        a.cost as int
    } else {
        grow(cost_after(a, (i - 1) as nat), a.cost_inc as int)
    }
}

/// The cumulative price of the first `i` upgrade steps.
pub open spec fn paid_after(a: Asset, i: nat) -> int
    decreases i,
{
    if i == 0 {
        0
    } else {
        paid_after(a, (i - 1) as nat) + cost_after(a, (i - 1) as nat)
    }
}

/// How many of the first `n` steps the balance covers: the largest `k <= n`
/// whose cumulative price stays within `points`.
pub open spec fn affordable_steps(a: Asset, points: u128, n: nat) -> nat
    decreases n,
{
    if n == 0 {
        0
    } else if paid_after(a, n) <= points {
        n
    } else {
        affordable_steps(a, points, (n - 1) as nat)
    }
}

/// Whether every value the full `n`-step walk runs through fits in the
/// balance type. The walked values are monotone, so the final step's decide.
pub open spec fn sim_fits(a: Asset, n: nat) -> bool {
    &&& paid_after(a, n) <= u128::MAX
    &&& growth_after(a, n) <= u128::MAX
    &&& cost_after(a, n) <= u128::MAX
}

proof fn lemma_growth_nonneg(a: Asset, i: nat)
    requires
        a.wf(),
    ensures
        growth_after(a, i) >= 0,
    decreases i,
{
    if i > 0 {
        lemma_growth_nonneg(a, (i - 1) as nat);
        lemma_div_pos_is_pos(growth_after(a, (i - 1) as nat), a.growth_rate_inc as int);
    }
}

proof fn lemma_cost_nonneg(a: Asset, i: nat)
    requires
        a.wf(),
    ensures
        cost_after(a, i) >= 0,
    decreases i,
{
    if i > 0 {
        lemma_cost_nonneg(a, (i - 1) as nat);
        lemma_div_pos_is_pos(cost_after(a, (i - 1) as nat), a.cost_inc as int);
    }
}

/// The walked growth rates never decrease.
pub proof fn lemma_growth_mono(a: Asset, i: nat, j: nat)
    requires
        a.wf(),
        i <= j,
    ensures
        growth_after(a, i) <= growth_after(a, j),
    decreases j,
{
    if i < j {
        lemma_growth_mono(a, i, (j - 1) as nat);
        lemma_growth_nonneg(a, (j - 1) as nat);
        lemma_div_pos_is_pos(growth_after(a, (j - 1) as nat), a.growth_rate_inc as int);
    }
}

/// The walked step prices never decrease.
pub proof fn lemma_cost_mono(a: Asset, i: nat, j: nat)
    requires
        a.wf(),
        i <= j,
    ensures
        cost_after(a, i) <= cost_after(a, j),
    decreases j,
{
    if i < j {
        lemma_cost_mono(a, i, (j - 1) as nat);
        lemma_cost_nonneg(a, (j - 1) as nat);
        lemma_div_pos_is_pos(cost_after(a, (j - 1) as nat), a.cost_inc as int);
    }
}

/// The cumulative price never decreases as steps are added.
pub proof fn lemma_paid_mono(a: Asset, i: nat, j: nat)
    requires
        a.wf(),
        i <= j,
    ensures
        paid_after(a, i) <= paid_after(a, j),
    decreases j,
{
    if i < j {
        lemma_paid_mono(a, i, (j - 1) as nat);
        lemma_cost_nonneg(a, (j - 1) as nat);
    }
}

/// The affordable count stays within `n` and its cumulative price within the balance.
pub proof fn lemma_affordable_le(a: Asset, points: u128, n: nat)
    ensures
        affordable_steps(a, points, n) <= n,
        paid_after(a, affordable_steps(a, points, n)) <= points,
    decreases n,
{
    if n > 0 && paid_after(a, n) > points {
        lemma_affordable_le(a, points, (n - 1) as nat);
    }
}

/// When not all steps are affordable, the very next step is already too dear.
pub proof fn lemma_affordable_boundary(a: Asset, points: u128, n: nat)
    requires
        affordable_steps(a, points, n) < n,
    ensures
        paid_after(a, affordable_steps(a, points, n) + 1) > points,
    decreases n,
{
    if n > 0 && paid_after(a, n) > points {
        if affordable_steps(a, points, (n - 1) as nat) == (n - 1) as nat {
        } else {
            lemma_affordable_boundary(a, points, (n - 1) as nat);
        }
    }
}

// ---------------------------------------------------------------------------
// Upgrade
// ---------------------------------------------------------------------------

/// The record after a committed upgrade of `n` steps on the asset of type `t`:
/// the summed price is deducted, the level grows by `n`, and the growth and
/// cost curves stand where the compounding walk left them.
pub open spec fn spec_upgraded_player(p: Player, t: AssetTypes, n: u64) -> Player {
    let a = p.upgrades.spec_get(t);
    let walked = Asset {
        amount: a.amount,
        level: (a.level + n) as u128,
        unlock_cost: a.unlock_cost,
        growth_rate: growth_after(a, n as nat) as u128,
        growth_rate_inc: a.growth_rate_inc,
        cost: cost_after(a, n as nat) as u128,
        cost_inc: a.cost_inc,
    };
    Player {
        start_time: p.start_time,
        current_points: (p.current_points - paid_after(a, n as nat)) as u128,
        last_claim_height: p.last_claim_height,
        upgrades: p.upgrades.spec_set(t, walked),
    }
}

/// What an upgrade returns, for every input. All-or-nothing: the simulation
/// walks through every requested step on a scratch copy, and either the full
/// `n`-step walk commits, or an error names the balance received, the full
/// walk's summed price, and the number of steps that were affordable.
pub open spec fn spec_upgrade(p: Player, name: String, n: u64) -> Result<Player, ContractError> {
    match spec_asset_type(name@) {
        None => Err(ContractError::AssetDoesNotExist { name }),
        Some(t) => {
            let a = p.upgrades.spec_get(t);
            if a.amount == 0 {
                Err(ContractError::AssetNotPurchased { name })
            } else if !sim_fits(a, n as nat) {
                Err(ContractError::ArithmeticOverflow {})
            } else if paid_after(a, n as nat) > p.current_points {
                Err(ContractError::NotEnoughPoints {
                    received: p.current_points,
                    required: paid_after(a, n as nat) as u128,
                    max_amount: Some(affordable_steps(a, p.current_points, n as nat) as u64),
                })
            } else if a.level + n > u128::MAX || p.upgrades.rate_bound() - a.growth_rate
                + growth_after(a, n as nat) > u128::MAX {
                Err(ContractError::ArithmeticOverflow {})
            } else {
                Ok(spec_upgraded_player(p, t, n))
            }
        },
    }
}

/// Applies `times` compounding upgrade steps to one owned asset, all or
/// nothing: the walk runs through every requested step on scratch values to
/// find the full summed price and the affordability boundary, and only a
/// fully affordable walk is committed.
pub fn upgrade_player(player: &Player, name: &String, times: u64) -> (r: Result<
    Player,
    ContractError,
>)
    requires
        player.wf(),
    ensures
        r == spec_upgrade(*player, *name, times),
        r matches Ok(q) ==> q.wf(),
{
    let t = match resolve_asset_type(name) {
        None => {
            return Err(ContractError::AssetDoesNotExist { name: name.clone() });
        },
        Some(t) => t,
    };
    let asset = *player.upgrades.get(&t);
    if asset.amount == 0 {
        return Err(ContractError::AssetNotPurchased { name: name.clone() });
    }
    let points = player.current_points;
    let ginc = asset.growth_rate_inc;
    let cinc = asset.cost_inc;
    let mut g: u128 = asset.growth_rate;
    let mut c: u128 = asset.cost;
    let mut total: u128 = 0;
    let mut afford: u64 = 0;
    let mut i: u64 = 0;
    while i < times
        invariant
            player.wf(),
            spec_asset_type(name@) == Some(t),
            asset == player.upgrades.spec_get(t),
            asset.wf(),
            asset.amount == 1,
            points == player.current_points,
            ginc == asset.growth_rate_inc,
            cinc == asset.cost_inc,
            i <= times,
            g == growth_after(asset, i as nat),
            c == cost_after(asset, i as nat),
            total == paid_after(asset, i as nat),
            afford == affordable_steps(asset, points, i as nat),
        decreases times - i,
    {
        let next_total = match total.checked_add(c) {
            None => {
                proof {
                    assert(paid_after(asset, (i + 1) as nat) == total + c);
                    lemma_paid_mono(asset, (i + 1) as nat, times as nat);
                    assert(!sim_fits(asset, times as nat));
                }
                return Err(ContractError::ArithmeticOverflow {});
            },
            Some(v) => v,
        };
        let gd = g / ginc;
        let next_g = match g.checked_add(gd) {
            None => {
                proof {
                    assert(growth_after(asset, (i + 1) as nat) == grow(
                        growth_after(asset, i as nat),
                        asset.growth_rate_inc as int,
                    ));
                    lemma_growth_mono(asset, (i + 1) as nat, times as nat);
                    assert(!sim_fits(asset, times as nat));
                }
                return Err(ContractError::ArithmeticOverflow {});
            },
            Some(v) => v,
        };
        let cd = c / cinc;
        let next_c = match c.checked_add(cd) {
            None => {
                proof {
                    assert(cost_after(asset, (i + 1) as nat) == grow(
                        cost_after(asset, i as nat),
                        asset.cost_inc as int,
                    ));
                    lemma_cost_mono(asset, (i + 1) as nat, times as nat);
                    assert(!sim_fits(asset, times as nat));
                }
                return Err(ContractError::ArithmeticOverflow {});
            },
            Some(v) => v,
        };
        total = next_total;
        g = next_g;
        c = next_c;
        if total <= points {
            afford = i + 1;
        }
        proof {
            assert(affordable_steps(asset, points, (i + 1) as nat) == (
            if paid_after(asset, (i + 1) as nat) <= points {
                (i + 1) as nat
            } else {
                affordable_steps(asset, points, i as nat)
            }));
        }
        i = i + 1;
    }
    if total > points {
        proof {
            lemma_affordable_le(asset, points, times as nat);
            assert(affordable_steps(asset, points, times as nat) < times as nat);
        }
        return Err(ContractError::NotEnoughPoints {
            received: points,
            required: total,
            max_amount: Some(afford),
        });
    }
    let new_level = match asset.level.checked_add(times as u128) {
        None => {
            return Err(ContractError::ArithmeticOverflow {});
        },
        Some(v) => v,
    };
    let rate_others = (player.upgrades.animals.growth_rate + player.upgrades.crops.growth_rate
        + player.upgrades.workers.growth_rate) - asset.growth_rate;
    if g > u128::MAX - rate_others {
        return Err(ContractError::ArithmeticOverflow {});
    }
    let walked = Asset {
        amount: asset.amount,
        level: new_level,
        unlock_cost: asset.unlock_cost,
        growth_rate: g,
        growth_rate_inc: ginc,
        cost: c,
        cost_inc: cinc,
    };
    let mut upgrades = player.upgrades;
    upgrades.set(&t, walked);
    Ok(
        Player {
            start_time: player.start_time,
            current_points: points - total,
            last_claim_height: player.last_claim_height,
            upgrades,
        },
    )
}

// ---------------------------------------------------------------------------
// Unlock
// ---------------------------------------------------------------------------

/// What an unlock returns, for every input: a one-time 0 to 1 transition of
/// the ownership flag against the asset's unlock cost; level and curves are
/// untouched.
pub open spec fn spec_unlock(p: Player, name: String) -> Result<Player, ContractError> {
    match spec_asset_type(name@) {
        None => Err(ContractError::AssetDoesNotExist { name }),
        Some(t) => {
            let a = p.upgrades.spec_get(t);
            if a.amount == 1 {
                Err(ContractError::AssetAlreadyPurchased { name })
            } else if p.current_points < a.unlock_cost {
                Err(ContractError::NotEnoughPoints {
                    received: p.current_points,
                    required: a.unlock_cost,
                    max_amount: None,
                })
            } else {
                Ok(Player {
                    start_time: p.start_time,
                    current_points: (p.current_points - a.unlock_cost) as u128,
                    last_claim_height: p.last_claim_height,
                    upgrades: p.upgrades.spec_set(t, Asset { amount: 1, ..a }),
                })
            }
        },
    }
}

/// Turns a locked asset's ownership flag on against its unlock cost.
pub fn unlock_player(player: &Player, name: &String) -> (r: Result<Player, ContractError>)
    requires
        player.wf(),
    ensures
        r == spec_unlock(*player, *name),
        r matches Ok(q) ==> q.wf(),
{
    let t = match resolve_asset_type(name) {
        None => {
            return Err(ContractError::AssetDoesNotExist { name: name.clone() });
        },
        Some(t) => t,
    };
    let asset = *player.upgrades.get(&t);
    if asset.amount == 1 {
        return Err(ContractError::AssetAlreadyPurchased { name: name.clone() });
    }
    if player.current_points < asset.unlock_cost {
        return Err(ContractError::NotEnoughPoints {
            received: player.current_points,
            required: asset.unlock_cost,
            max_amount: None,
        });
    }
    let mut upgrades = player.upgrades;
    upgrades.set(&t, Asset { amount: 1, ..asset });
    Ok(
        Player {
            start_time: player.start_time,
            current_points: player.current_points - asset.unlock_cost,
            last_claim_height: player.last_claim_height,
            upgrades,
        },
    )
}

// ---------------------------------------------------------------------------
// Admin credit
// ---------------------------------------------------------------------------

/// What an admin credit returns: the balance grown by the amount, or an
/// arithmetic error when it would not fit.
pub open spec fn spec_credit(p: Player, amount: u128) -> Result<Player, ContractError> {
    if p.current_points + amount > u128::MAX {
        Err(ContractError::ArithmeticOverflow {})
    } else {
        Ok(Player {
            start_time: p.start_time,
            current_points: (p.current_points + amount) as u128,
            last_claim_height: p.last_claim_height,
            upgrades: p.upgrades,
        })
    }
}

/// Credits points to a record with a checked addition.
pub fn credit_points(player: &Player, amount: u128) -> (r: Result<Player, ContractError>)
    ensures
        r == spec_credit(*player, amount),
        player.wf() ==> (r matches Ok(q) ==> q.wf()),
{
    match player.current_points.checked_add(amount) {
        None => Err(ContractError::ArithmeticOverflow {}),
        Some(settled) => Ok(
            Player {
                start_time: player.start_time,
                current_points: settled,
                last_claim_height: player.last_claim_height,
                upgrades: player.upgrades,
            },
        ),
    }
}

} // verus!
