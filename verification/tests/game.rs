use idlegame::contract::{execute, instantiate, query, QueryAnswer};
use idlegame::error::ContractError;
use idlegame::msg::{AssetTypes, ExecuteMsg, InstantiateMsg, Player, QueryMsg};
use idlegame::state::{get_last_claim_height, Store};

fn setup(admin: Option<&str>) -> Store {
    instantiate(
        "creator".to_string(),
        InstantiateMsg { admin: admin.map(|s| s.to_string()) },
    )
}

fn info(store: &Store, address: &str) -> Option<Player> {
    match query(store, QueryMsg::Info { address: address.to_string() }) {
        QueryAnswer::Info(p) => p,
        other => panic!("unexpected answer: {:?}", other),
    }
}

fn run(store: &mut Store, height: u64, sender: &str, msg: ExecuteMsg) -> Result<(), ContractError> {
    execute(store, height, sender.to_string(), msg)
}

#[test]
fn start_seeds_three_assets() {
    let mut store = setup(Some("A"));
    run(&mut store, 100, "B", ExecuteMsg::Start {}).unwrap();
    let player = info(&store, "B").unwrap();
    assert_eq!(player.current_points, 0);
    assert_eq!(player.start_time, 100);
    assert_eq!(player.last_claim_height, 100);
    assert_eq!(player.upgrades.crops.amount, 1);
    assert_eq!(player.upgrades.animals.amount, 0);
    assert_eq!(player.upgrades.workers.amount, 0);
    assert_eq!(player.upgrades.crops.growth_rate, 10_000);
    assert_eq!(player.upgrades.animals.unlock_cost, 25_000_000);
    assert_eq!(player.upgrades.workers.unlock_cost, 100_000_000);
}

#[test]
fn start_twice_fails() {
    let mut store = setup(Some("A"));
    run(&mut store, 100, "B", ExecuteMsg::Start {}).unwrap();
    let err = run(&mut store, 101, "B", ExecuteMsg::Start {}).unwrap_err();
    assert_eq!(err, ContractError::PlayerAlreadyExists { address: "B".to_string() });
}

#[test]
fn claim_accrues_crops_production() {
    let mut store = setup(Some("A"));
    run(&mut store, 100, "B", ExecuteMsg::Start {}).unwrap();
    run(&mut store, 110, "B", ExecuteMsg::Claim {}).unwrap();
    let player = info(&store, "B").unwrap();
    assert_eq!(player.current_points, 100_000);
    assert_eq!(player.last_claim_height, 110);
}

#[test]
fn claim_twice_at_same_height_gains_nothing() {
    let mut store = setup(Some("A"));
    run(&mut store, 100, "B", ExecuteMsg::Start {}).unwrap();
    run(&mut store, 110, "B", ExecuteMsg::Claim {}).unwrap();
    let first = info(&store, "B").unwrap();
    run(&mut store, 110, "B", ExecuteMsg::Claim {}).unwrap();
    let second = info(&store, "B").unwrap();
    assert_eq!(second, first);
    assert_eq!(second.current_points, 100_000);
}

#[test]
fn claims_grow_linearly_between_heights() {
    let mut store = setup(Some("A"));
    run(&mut store, 100, "B", ExecuteMsg::Start {}).unwrap();
    run(&mut store, 110, "B", ExecuteMsg::Claim {}).unwrap();
    let at_110 = info(&store, "B").unwrap().current_points;
    run(&mut store, 120, "B", ExecuteMsg::Claim {}).unwrap();
    let at_120 = info(&store, "B").unwrap().current_points;
    assert_eq!(at_120, at_110 + 10_000 * 10);
}

#[test]
fn claim_without_record_fails() {
    let mut store = setup(Some("A"));
    let err = run(&mut store, 100, "B", ExecuteMsg::Claim {}).unwrap_err();
    assert_eq!(err, ContractError::PlayerDoesNotExist { address: "B".to_string() });
}

#[test]
fn upgrade_rejection_reports_affordability() {
    let mut store = setup(Some("A"));
    run(&mut store, 100, "B", ExecuteMsg::Start {}).unwrap();
    run(&mut store, 110, "B", ExecuteMsg::Claim {}).unwrap();
    let before = info(&store, "B").unwrap();
    let err = run(
        &mut store,
        110,
        "B",
        ExecuteMsg::Upgrade { name: "crops".to_string(), num_of_times: Some(1) },
    )
    .unwrap_err();
    assert_eq!(
        err,
        ContractError::NotEnoughPoints {
            received: 100_000,
            required: 1_000_000,
            max_amount: Some(0),
        }
    );
    assert_eq!(info(&store, "B").unwrap(), before);
}

#[test]
fn upgrade_commits_compounded_steps_exactly() {
    let mut store = setup(Some("A"));
    run(&mut store, 100, "B", ExecuteMsg::Start {}).unwrap();
    run(
        &mut store,
        100,
        "A",
        ExecuteMsg::AddFunds { address: "B".to_string(), amount: 3_000_000 },
    )
    .unwrap();
    run(
        &mut store,
        100,
        "B",
        ExecuteMsg::Upgrade { name: "crops".to_string(), num_of_times: Some(2) },
    )
    .unwrap();
    let player = info(&store, "B").unwrap();
    // step one: rate 10_000 -> 10_133, cost 1_000_000 -> 1_100_000
    // step two: rate 10_133 -> 10_268, cost 1_100_000 -> 1_210_000
    assert_eq!(player.current_points, 3_000_000 - (1_000_000 + 1_100_000));
    assert_eq!(player.upgrades.crops.growth_rate, 10_268);
    assert_eq!(player.upgrades.crops.cost, 1_210_000);
    assert_eq!(player.upgrades.crops.level, 3);
    assert_eq!(player.upgrades.crops.amount, 1);
}

#[test]
fn upgrade_boundary_counts_affordable_steps() {
    let mut store = setup(Some("A"));
    run(&mut store, 100, "B", ExecuteMsg::Start {}).unwrap();
    run(
        &mut store,
        100,
        "A",
        ExecuteMsg::AddFunds { address: "B".to_string(), amount: 2_099_999 },
    )
    .unwrap();
    let before = info(&store, "B").unwrap();
    let err = run(
        &mut store,
        100,
        "B",
        ExecuteMsg::Upgrade { name: "crops".to_string(), num_of_times: Some(3) },
    )
    .unwrap_err();
    // the three requested steps cost 1_000_000 + 1_100_000 + 1_210_000 in
    // full, of which only the first is affordable
    assert_eq!(
        err,
        ContractError::NotEnoughPoints {
            received: 2_099_999,
            required: 3_310_000,
            max_amount: Some(1),
        }
    );
    assert_eq!(info(&store, "B").unwrap(), before);
}

#[test]
fn upgrade_defaults_to_one_step() {
    let mut store = setup(Some("A"));
    run(&mut store, 100, "B", ExecuteMsg::Start {}).unwrap();
    run(
        &mut store,
        100,
        "A",
        ExecuteMsg::AddFunds { address: "B".to_string(), amount: 1_000_000 },
    )
    .unwrap();
    run(
        &mut store,
        100,
        "B",
        ExecuteMsg::Upgrade { name: "crops".to_string(), num_of_times: None },
    )
    .unwrap();
    let player = info(&store, "B").unwrap();
    assert_eq!(player.current_points, 0);
    assert_eq!(player.upgrades.crops.level, 2);
    assert_eq!(player.upgrades.crops.growth_rate, 10_133);
    assert_eq!(player.upgrades.crops.cost, 1_100_000);
}

#[test]
fn upgrade_unknown_asset_fails() {
    let mut store = setup(Some("A"));
    run(&mut store, 100, "B", ExecuteMsg::Start {}).unwrap();
    let err = run(
        &mut store,
        100,
        "B",
        ExecuteMsg::Upgrade { name: "gold".to_string(), num_of_times: Some(1) },
    )
    .unwrap_err();
    assert_eq!(err, ContractError::AssetDoesNotExist { name: "gold".to_string() });
}

#[test]
fn upgrade_locked_asset_fails() {
    let mut store = setup(Some("A"));
    run(&mut store, 100, "B", ExecuteMsg::Start {}).unwrap();
    let err = run(
        &mut store,
        100,
        "B",
        ExecuteMsg::Upgrade { name: "animals".to_string(), num_of_times: Some(1) },
    )
    .unwrap_err();
    assert_eq!(err, ContractError::AssetNotPurchased { name: "animals".to_string() });
}

#[test]
fn unlock_transitions_ownership_once() {
    let mut store = setup(Some("A"));
    run(&mut store, 100, "B", ExecuteMsg::Start {}).unwrap();
    run(
        &mut store,
        100,
        "A",
        ExecuteMsg::AddFunds { address: "B".to_string(), amount: 30_000_000 },
    )
    .unwrap();
    run(&mut store, 100, "B", ExecuteMsg::Unlock { name: "animals".to_string() }).unwrap();
    let player = info(&store, "B").unwrap();
    assert_eq!(player.upgrades.animals.amount, 1);
    assert_eq!(player.current_points, 5_000_000);
    assert_eq!(player.upgrades.animals.level, 1);
    let err = run(&mut store, 100, "B", ExecuteMsg::Unlock { name: "animals".to_string() })
        .unwrap_err();
    assert_eq!(err, ContractError::AssetAlreadyPurchased { name: "animals".to_string() });
    assert_eq!(info(&store, "B").unwrap().current_points, 5_000_000);
}

#[test]
fn unlock_needs_the_full_price() {
    let mut store = setup(Some("A"));
    run(&mut store, 100, "B", ExecuteMsg::Start {}).unwrap();
    let err = run(&mut store, 100, "B", ExecuteMsg::Unlock { name: "animals".to_string() })
        .unwrap_err();
    assert_eq!(
        err,
        ContractError::NotEnoughPoints { received: 0, required: 25_000_000, max_amount: None }
    );
}

#[test]
fn unlock_already_owned_crops_fails() {
    let mut store = setup(Some("A"));
    run(&mut store, 100, "B", ExecuteMsg::Start {}).unwrap();
    let err = run(&mut store, 100, "B", ExecuteMsg::Unlock { name: "crops".to_string() })
        .unwrap_err();
    assert_eq!(err, ContractError::AssetAlreadyPurchased { name: "crops".to_string() });
}

#[test]
fn admin_actions_reject_other_senders() {
    let mut store = setup(Some("A"));
    run(&mut store, 100, "B", ExecuteMsg::Start {}).unwrap();
    let before = info(&store, "B").unwrap();
    let err = run(
        &mut store,
        100,
        "B",
        ExecuteMsg::RemovePlayer { address: "B".to_string() },
    )
    .unwrap_err();
    assert_eq!(err, ContractError::Unauthorized {});
    let err = run(
        &mut store,
        100,
        "B",
        ExecuteMsg::AddFunds { address: "B".to_string(), amount: 5 },
    )
    .unwrap_err();
    assert_eq!(err, ContractError::Unauthorized {});
    assert_eq!(info(&store, "B").unwrap(), before);
}

#[test]
fn add_funds_needs_an_existing_player() {
    let mut store = setup(Some("A"));
    let err = run(
        &mut store,
        100,
        "A",
        ExecuteMsg::AddFunds { address: "B".to_string(), amount: 5 },
    )
    .unwrap_err();
    assert_eq!(err, ContractError::PlayerDoesNotExist { address: "B".to_string() });
    assert_eq!(info(&store, "B"), None);
}

#[test]
fn add_funds_overflow_is_rejected() {
    let mut store = setup(Some("A"));
    run(&mut store, 100, "B", ExecuteMsg::Start {}).unwrap();
    run(
        &mut store,
        100,
        "A",
        ExecuteMsg::AddFunds { address: "B".to_string(), amount: u128::MAX },
    )
    .unwrap();
    let err = run(
        &mut store,
        100,
        "A",
        ExecuteMsg::AddFunds { address: "B".to_string(), amount: 1 },
    )
    .unwrap_err();
    assert_eq!(err, ContractError::ArithmeticOverflow {});
    assert_eq!(info(&store, "B").unwrap().current_points, u128::MAX);
}

#[test]
fn claim_overflow_is_rejected_without_writes() {
    let mut store = setup(Some("A"));
    run(&mut store, 100, "B", ExecuteMsg::Start {}).unwrap();
    run(
        &mut store,
        100,
        "A",
        ExecuteMsg::AddFunds { address: "B".to_string(), amount: u128::MAX },
    )
    .unwrap();
    let err = run(&mut store, 101, "B", ExecuteMsg::Claim {}).unwrap_err();
    assert_eq!(err, ContractError::ArithmeticOverflow {});
    let player = info(&store, "B").unwrap();
    assert_eq!(player.current_points, u128::MAX);
    assert_eq!(player.last_claim_height, 100);
}

#[test]
fn upgrade_overflow_is_rejected_without_writes() {
    let mut store = setup(Some("A"));
    run(&mut store, 100, "B", ExecuteMsg::Start {}).unwrap();
    run(
        &mut store,
        100,
        "A",
        ExecuteMsg::AddFunds { address: "B".to_string(), amount: u128::MAX },
    )
    .unwrap();
    let before = info(&store, "B").unwrap();
    // the compounding cost curve leaves the balance type long before
    // two thousand steps are summed
    let err = run(
        &mut store,
        100,
        "B",
        ExecuteMsg::Upgrade { name: "crops".to_string(), num_of_times: Some(2000) },
    )
    .unwrap_err();
    assert_eq!(err, ContractError::ArithmeticOverflow {});
    assert_eq!(info(&store, "B").unwrap(), before);
}

#[test]
fn remove_player_deletes_and_tolerates_absence() {
    let mut store = setup(Some("A"));
    run(&mut store, 100, "B", ExecuteMsg::Start {}).unwrap();
    run(&mut store, 100, "A", ExecuteMsg::RemovePlayer { address: "B".to_string() }).unwrap();
    assert_eq!(info(&store, "B"), None);
    run(&mut store, 100, "A", ExecuteMsg::RemovePlayer { address: "B".to_string() }).unwrap();
    assert_eq!(info(&store, "B"), None);
}

#[test]
fn last_claim_height_reads_zero_for_missing_records() {
    let mut store = setup(Some("A"));
    assert_eq!(get_last_claim_height(&store, &"B".to_string()), 0);
    run(&mut store, 100, "B", ExecuteMsg::Start {}).unwrap();
    assert_eq!(get_last_claim_height(&store, &"B".to_string()), 100);
    run(&mut store, 110, "B", ExecuteMsg::Claim {}).unwrap();
    assert_eq!(get_last_claim_height(&store, &"B".to_string()), 110);
}

#[test]
fn well_formedness_check_matches_the_data() {
    let mut store = setup(Some("A"));
    run(&mut store, 100, "B", ExecuteMsg::Start {}).unwrap();
    let player = info(&store, "B").unwrap();
    assert!(player.is_well_formed());
    let mut corrupt = player.clone();
    corrupt.upgrades.crops.amount = 2;
    assert!(!corrupt.is_well_formed());
    let mut corrupt = player.clone();
    corrupt.upgrades.animals.cost_inc = 0;
    assert!(!corrupt.is_well_formed());
}

#[test]
fn asset_type_names() {
    assert_eq!(AssetTypes::Crops.as_str(), "crops");
    assert_eq!(AssetTypes::Animals.as_str(), "animals");
    assert_eq!(AssetTypes::Workers.as_str(), "workers");
}
