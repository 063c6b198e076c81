use vstd::prelude::*;
use vstd::string::StringExecFns;
use crate::engine::{
    calculate_per_block_rewards, claim_player, credit_points, new_player, spec_claim, spec_credit,
    spec_new_player, spec_unlock, spec_upgrade, unlock_player, upgrade_player,
};
use crate::error::ContractError;
use crate::msg::{
    AssetTypes, Asset, ContractInformationResponse, ExecuteMsg, InstantiateMsg, PerAssetPoints,
    Player, PlayerAssets, PointsPerBlock, QueryMsg, Upgrades,
};
use crate::state::{PlayerTable, Store};

verus! {

/// The fixed template constants seeded at setup: crops come pre-unlocked,
/// animals and workers start locked behind their unlock costs.
pub open spec fn initial_templates() -> PlayerAssets {
    PlayerAssets {
        animals: Asset {
            amount: 0,
            level: 1,
            unlock_cost: 25_000_000,
            growth_rate: 100_000,
            growth_rate_inc: 40,
            cost: 10_000_000,
            cost_inc: 5,
        },
        crops: Asset {
            amount: 1,
            level: 1,
            unlock_cost: 0,
            growth_rate: 10_000,
            growth_rate_inc: 75,
            cost: 1_000_000,
            cost_inc: 10,
        },
        workers: Asset {
            amount: 0,
            level: 1,
            unlock_cost: 100_000_000,
            growth_rate: 1_000_000,
            growth_rate_inc: 20,
            cost: 15_000_000,
            cost_inc: 3,
        },
    }
}

/// Seeds the store: the admin record (the caller when none is named) and the
/// three asset templates, with no players yet. The host validates the admin
/// address before this runs.
pub fn instantiate(sender: String, msg: InstantiateMsg) -> (store: Store)
    ensures
        store.wf(),
        store.templates == initial_templates(),
        store.players@ == Map::<Seq<char>, Player>::empty(),
        store.info.admin@ == (match msg.admin {
            Some(a) => a@,
            None => sender@,
        }),
{
    let admin = match msg.admin {
        Some(a) => a,
        None => sender,
    };
    Store {
        info: ContractInformationResponse { admin },
        templates: PlayerAssets {
            animals: Asset {
                amount: 0,
                level: 1,
                unlock_cost: 25_000_000,
                growth_rate: 100_000,
                growth_rate_inc: 40,
                cost: 10_000_000,
                cost_inc: 5,
            },
            crops: Asset {
                amount: 1,
                level: 1,
                unlock_cost: 0,
                growth_rate: 10_000,
                growth_rate_inc: 75,
                cost: 1_000_000,
                cost_inc: 10,
            },
            workers: Asset {
                amount: 0,
                level: 1,
                unlock_cost: 100_000_000,
                growth_rate: 1_000_000,
                growth_rate_inc: 20,
                cost: 15_000_000,
                cost_inc: 3,
            },
        },
        players: PlayerTable::new(),
    }
}

/// Admin gate: only the stored admin address may pass.
pub fn admin_error_check(info: &ContractInformationResponse, sender: &String) -> (r: Result<
    (),
    ContractError,
>)
    ensures
        match r {
            Ok(_) => sender@ == info.admin@,
            Err(e) => e == (ContractError::Unauthorized {}) && sender@ != info.admin@,
        },
{
    if info.admin == *sender {
        Ok(())
    } else {
        Err(ContractError::Unauthorized {})
    }
}

proof fn lemma_store_insert_ok(pre: Map<Seq<char>, Player>, k: Seq<char>, q: Player, height: u64)
    requires
        forall|x: Seq<char>| #[trigger] pre.contains_key(x) ==> pre[x].wf(),
        forall|x: Seq<char>| #[trigger] pre.contains_key(x) ==> pre[x].last_claim_height <= height,
        q.wf(),
        q.last_claim_height <= height,
    ensures
        forall|x: Seq<char>| #[trigger] pre.insert(k, q).contains_key(x) ==> pre.insert(
            k,
            q,
        )[x].wf(),
        forall|x: Seq<char>| #[trigger] pre.insert(k, q).contains_key(x) ==> pre.insert(
            k,
            q,
        )[x].last_claim_height <= height,
{
    assert forall|x: Seq<char>| #[trigger] pre.insert(k, q).contains_key(x) implies pre.insert(
        k,
        q,
    )[x].wf() && pre.insert(k, q)[x].last_claim_height <= height by {
        if x != k {
            assert(pre.contains_key(x));
        }
    }
}

proof fn lemma_store_remove_ok(pre: Map<Seq<char>, Player>, k: Seq<char>, height: u64)
    requires
        forall|x: Seq<char>| #[trigger] pre.contains_key(x) ==> pre[x].wf(),
        forall|x: Seq<char>| #[trigger] pre.contains_key(x) ==> pre[x].last_claim_height <= height,
    ensures
        forall|x: Seq<char>| #[trigger] pre.remove(k).contains_key(x) ==> pre.remove(k)[x].wf(),
        forall|x: Seq<char>| #[trigger] pre.remove(k).contains_key(x) ==> pre.remove(
            k,
        )[x].last_claim_height <= height,
{
    assert forall|x: Seq<char>| #[trigger] pre.remove(k).contains_key(x) implies pre.remove(
        k,
    )[x].wf() && pre.remove(k)[x].last_claim_height <= height by {
        assert(pre.contains_key(x));
    }
}

/// Routes one action request. Every failure is returned before any write:
/// an error leaves the store exactly as it was. The host clock supplies
/// `height` and never runs backwards past a stored claim height.
pub fn execute(store: &mut Store, height: u64, sender: String, msg: ExecuteMsg) -> (r: Result<
    (),
    ContractError,
>)
    requires
        old(store).wf(),
        old(store).heights_ok(height),
    ensures
        final(store).wf(),
        final(store).heights_ok(height),
        final(store).info == old(store).info,
        final(store).templates == old(store).templates,
        r matches Err(_) ==> *final(store) == *old(store),
        (match msg {
            ExecuteMsg::Start {} => {
                if old(store).players@.contains_key(sender@) {
                    r == Err::<(), ContractError>(
                        ContractError::PlayerAlreadyExists { address: sender },
                    )
                } else {
                    &&& r == Ok::<(), ContractError>(())
                    &&& final(store).players@ == old(store).players@.insert(
                        sender@,
                        spec_new_player(old(store).templates, height),
                    )
                }
            },
            ExecuteMsg::Claim {} => {
                if !old(store).players@.contains_key(sender@) {
                    r == Err::<(), ContractError>(
                        ContractError::PlayerDoesNotExist { address: sender },
                    )
                } else {
                    match spec_claim(old(store).players@[sender@], height) {
                        Ok(q) => r == Ok::<(), ContractError>(()) && final(store).players@ == old(
                            store,
                        ).players@.insert(sender@, q),
                        Err(e) => r == Err::<(), ContractError>(e),
                    }
                }
            },
            ExecuteMsg::Upgrade { name, num_of_times } => {
                let times = (match num_of_times {
                    Some(k) => k,
                    None => 1u64,
                });
                if !old(store).players@.contains_key(sender@) {
                    r == Err::<(), ContractError>(
                        ContractError::PlayerDoesNotExist { address: sender },
                    )
                } else {
                    match spec_upgrade(old(store).players@[sender@], name, times) {
                        Ok(q) => r == Ok::<(), ContractError>(()) && final(store).players@ == old(
                            store,
                        ).players@.insert(sender@, q),
                        Err(e) => r == Err::<(), ContractError>(e),
                    }
                }
            },
            ExecuteMsg::Unlock { name } => {
                if !old(store).players@.contains_key(sender@) {
                    r == Err::<(), ContractError>(
                        ContractError::PlayerDoesNotExist { address: sender },
                    )
                } else {
                    match spec_unlock(old(store).players@[sender@], name) {
                        Ok(q) => r == Ok::<(), ContractError>(()) && final(store).players@ == old(
                            store,
                        ).players@.insert(sender@, q),
                        Err(e) => r == Err::<(), ContractError>(e),
                    }
                }
            },
            ExecuteMsg::RemovePlayer { address } => {
                if sender@ != old(store).info.admin@ {
                    r == Err::<(), ContractError>(ContractError::Unauthorized {})
                } else {
                    &&& r == Ok::<(), ContractError>(())
                    &&& final(store).players@ == old(store).players@.remove(address@)
                }
            },
            ExecuteMsg::AddFunds { address, amount } => {
                if sender@ != old(store).info.admin@ {
                    r == Err::<(), ContractError>(ContractError::Unauthorized {})
                } else if !old(store).players@.contains_key(address@) {
                    r == Err::<(), ContractError>(
                        ContractError::PlayerDoesNotExist { address },
                    )
                } else {
                    match spec_credit(old(store).players@[address@], amount) {
                        Ok(q) => r == Ok::<(), ContractError>(()) && final(store).players@ == old(
                            store,
                        ).players@.insert(address@, q),
                        Err(e) => r == Err::<(), ContractError>(e),
                    }
                }
            },
        }),
{
    match msg {
        ExecuteMsg::Start {} => {
            let existing = match store.players.get(&sender) {
                Some(_) => true,
                None => false,
            };
            if existing {
                return Err(ContractError::PlayerAlreadyExists { address: sender });
            }
            let player = new_player(&store.templates, height);
            store.players.save(&sender, player);
            proof {
                lemma_store_insert_ok(old(store).players@, sender@, player, height);
            }
            Ok(())
        },
        ExecuteMsg::Claim {} => {
            let found = match store.players.get(&sender) {
                Some(p) => Some(*p),
                None => None,
            };
            match found {
                None => Err(ContractError::PlayerDoesNotExist { address: sender }),
                Some(player) => {
                    match claim_player(&player, height) {
                        Err(e) => Err(e),
                        Ok(settled) => {
                            store.players.save(&sender, settled);
                            proof {
                                lemma_store_insert_ok(old(store).players@, sender@, settled, height);
                            }
                            Ok(())
                        },
                    }
                },
            }
        },
        ExecuteMsg::Upgrade { name, num_of_times } => {
            let times: u64 = match num_of_times {
                Some(k) => k,
                None => 1,
            };
            let found = match store.players.get(&sender) {
                Some(p) => Some(*p),
                None => None,
            };
            match found {
                None => Err(ContractError::PlayerDoesNotExist { address: sender }),
                Some(player) => {
                    match upgrade_player(&player, &name, times) {
                        Err(e) => Err(e),
                        Ok(walked) => {
                            store.players.save(&sender, walked);
                            proof {
                                lemma_store_insert_ok(old(store).players@, sender@, walked, height);
                            }
                            Ok(())
                        },
                    }
                },
            }
        },
        ExecuteMsg::Unlock { name } => {
            let found = match store.players.get(&sender) {
                Some(p) => Some(*p),
                None => None,
            };
            match found {
                None => Err(ContractError::PlayerDoesNotExist { address: sender }),
                Some(player) => {
                    match unlock_player(&player, &name) {
                        Err(e) => Err(e),
                        Ok(opened) => {
                            store.players.save(&sender, opened);
                            proof {
                                lemma_store_insert_ok(old(store).players@, sender@, opened, height);
                            }
                            Ok(())
                        },
                    }
                },
            }
        },
        ExecuteMsg::RemovePlayer { address } => {
            match admin_error_check(&store.info, &sender) {
                Err(e) => Err(e),
                Ok(_) => {
                    store.players.remove(&address);
                    proof {
                        lemma_store_remove_ok(old(store).players@, address@, height);
                    }
                    Ok(())
                },
            }
        },
        ExecuteMsg::AddFunds { address, amount } => {
            match admin_error_check(&store.info, &sender) {
                Err(e) => Err(e),
                Ok(_) => {
                    let found = match store.players.get(&address) {
                        Some(p) => Some(*p),
                        None => None,
                    };
                    match found {
                        None => Err(ContractError::PlayerDoesNotExist { address }),
                        Some(player) => {
                            match credit_points(&player, amount) {
                                Err(e) => Err(e),
                                Ok(funded) => {
                                    store.players.save(&address, funded);
                                    proof {
                                        lemma_store_insert_ok(
                                            old(store).players@,
                                            address@,
                                            funded,
                                            height,
                                        );
                                    }
                                    Ok(())
                                },
                            }
                        },
                    }
                },
            }
        },
    }
}

/// What a read request returns.
#[derive(Clone, Debug, PartialEq, Eq)]
pub enum QueryAnswer {
    /// The player record under the address, absent when none exists.
    Info(Option<Player>),
    /// The singleton contract record.
    ContractInfo(ContractInformationResponse),
    /// The asset-type names of the template store, in ascending key order.
    Upgrades(Upgrades),
    /// A player's production breakdown, absent when no record exists.
    PointsPerBlock(Option<PointsPerBlock>),
}

/// Routes one read request; reads never change the store.
pub fn query(store: &Store, msg: QueryMsg) -> (r: QueryAnswer)
    requires
        store.wf(),
    ensures
        (match msg {
            QueryMsg::Info { address } => r == QueryAnswer::Info(
                if store.players@.contains_key(address@) {
                    Some(store.players@[address@])
                } else {
                    None::<Player>
                },
            ),
            QueryMsg::ContractInfo {} => r == QueryAnswer::ContractInfo(store.info),
            QueryMsg::Upgrades {} => {
                &&& r matches QueryAnswer::Upgrades(u)
                &&& u.values@.len() == 3
                &&& u.values@[0]@ == AssetTypes::Animals.spec_name()
                &&& u.values@[1]@ == AssetTypes::Crops.spec_name()
                &&& u.values@[2]@ == AssetTypes::Workers.spec_name()
            },
            QueryMsg::PointsPerBlock { address } => {
                if store.players@.contains_key(address@) {
                    r == QueryAnswer::PointsPerBlock(
                        Some(
                            PointsPerBlock {
                                total: store.players@[address@].upgrades.rate_total() as u128,
                                per_asset: PerAssetPoints {
                                    animals: store.players@[address@].upgrades.animals.rate()
                                        as u128,
                                    crops: store.players@[address@].upgrades.crops.rate() as u128,
                                    workers: store.players@[address@].upgrades.workers.rate()
                                        as u128,
                                },
                            },
                        ),
                    )
                } else {
                    r == QueryAnswer::PointsPerBlock(None::<PointsPerBlock>)
                }
            },
        }),
{
    match msg {
        QueryMsg::Info { address } => {
            let found = match store.players.get(&address) {
                Some(p) => Some(*p),
                None => None,
            };
            QueryAnswer::Info(found)
        },
        QueryMsg::ContractInfo {} => QueryAnswer::ContractInfo(
            ContractInformationResponse { admin: store.info.admin.clone() },
        ),
        QueryMsg::Upgrades {} => {
            let mut values: Vec<String> = Vec::new();
            values.push(String::from_str(AssetTypes::Animals.as_str()));
            values.push(String::from_str(AssetTypes::Crops.as_str()));
            values.push(String::from_str(AssetTypes::Workers.as_str()));
            QueryAnswer::Upgrades(Upgrades { values })
        },
        QueryMsg::PointsPerBlock { address } => {
            let found = match store.players.get(&address) {
                Some(p) => Some(*p),
                None => None,
            };
            match found {
                None => QueryAnswer::PointsPerBlock(None),
                Some(player) => QueryAnswer::PointsPerBlock(
                    Some(calculate_per_block_rewards(&player)),
                ),
            }
        },
    }
}

} // verus!
