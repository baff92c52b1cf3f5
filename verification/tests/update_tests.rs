//! Updating vaults: every validation and every applied change.

use dca::bounty::{Bounty, BountyStatus};
use dca::coin::Coin;
use dca::config::FeeCollector;
use dca::destination::Destination;
use dca::error::ContractError;
use dca::event::{BlockInfo, Event, EventData, Update};
use dca::handlers::get_bounty::{get_bounty_handler, get_events_by_resource_id_handler};
use dca::handlers::instantiate::instantiate_handler;
use dca::handlers::update_bounty::update_bounty_handler;
use dca::math::Decimal;
use dca::msg::{InstantiateMsg, MessageInfo};
use dca::state::{migrate_bounty, State};
use dca::strategy::{
    BaseDenom, PositionType, SwapAdjustmentStrategy, SwapAdjustmentStrategyParams,
};
use dca::time::{get_next_target_time, TimeInterval};
use dca::trigger::TriggerConfiguration;

const ADMIN: &str = "admin";
const USER: &str = "user";
const DENOM_UKUJI: &str = "ukuji";
const DENOM_UUSK: &str = "uusk";
const ONE: u128 = 1_000_000;
const TEN: u128 = 10_000_000;
const MOCK_TIME: u64 = 1_571_797_419;

fn mock_block() -> BlockInfo {
    BlockInfo {
        height: 12345,
        time: MOCK_TIME,
    }
}

fn instantiate_contract() -> State {
    instantiate_handler(InstantiateMsg {
        admin: ADMIN.to_string(),
        executors: vec![ADMIN.to_string()],
        fee_collectors: vec![FeeCollector {
            address: "fee_collector".to_string(),
            allocation: Decimal::percent(100),
        }],
        automation_fee_percent: Decimal::percent(0),
        paused: false,
        exchange_contract_address: "swap-contract".to_string(),
    })
    .unwrap()
}

fn default_bounty() -> Bounty {
    Bounty {
        id: 0,
        created_at: MOCK_TIME,
        started_at: None,
        owner: USER.to_string(),
        label: Some("bounty".to_string()),
        destinations: vec![Destination {
            address: USER.to_string(),
            allocation: Decimal::percent(100),
            msg: None,
        }],
        status: BountyStatus::Active,
        balance: Coin::new(TEN, DENOM_UKUJI),
        target_denom: DENOM_UUSK.to_string(),
        route: None,
        swap_amount: ONE,
        slippage_tolerance: Decimal::percent(10),
        minimum_receive_amount: None,
        time_interval: TimeInterval::Daily,
        escrow_level: Decimal::zero(),
        deposited_amount: Coin::new(TEN, DENOM_UKUJI),
        swapped_amount: Coin::new(0, DENOM_UKUJI),
        received_amount: Coin::new(0, DENOM_UUSK),
        escrowed_amount: Coin::new(0, DENOM_UUSK),
        performance_assessment_strategy: None,
        swap_adjustment_strategy: None,
        trigger: Some(TriggerConfiguration::Time {
            target_time: MOCK_TIME + 86400,
        }),
    }
}

fn setup_bounty(state: &mut State, bounty: Bounty) -> Bounty {
    let copy = bounty.clone();
    migrate_bounty(state, bounty).unwrap();
    copy
}

fn user_info() -> MessageInfo {
    MessageInfo {
        sender: USER.to_string(),
        funds: vec![],
    }
}

fn update(
    state: &mut State,
    bounty_id: u128,
    label: Option<String>,
    destinations: Option<Vec<Destination>>,
    slippage_tolerance: Option<Decimal>,
    minimum_receive_amount: Option<u128>,
    time_interval: Option<TimeInterval>,
    swap_adjustment_strategy: Option<SwapAdjustmentStrategyParams>,
    swap_amount: Option<u128>,
) -> Result<dca::msgs::Response, ContractError> {
    update_bounty_handler(
        state,
        mock_block(),
        &user_info(),
        bounty_id,
        label,
        destinations,
        slippage_tolerance,
        minimum_receive_amount,
        time_interval,
        swap_adjustment_strategy,
        swap_amount,
    )
}

#[test]
fn with_slippage_tolerance_larger_than_one_fails() {
    let mut state = instantiate_contract();
    let bounty = setup_bounty(&mut state, default_bounty());

    let err = update(
        &mut state,
        bounty.id,
        None,
        None,
        Some(Decimal::percent(101)),
        None,
        None,
        None,
        None,
    )
    .unwrap_err();

    assert_eq!(
        err.message(),
        "Error: slippage tolerance must be less than or equal to 1"
    );
}

#[test]
fn with_custom_time_interval_less_than_60_seconds_fails() {
    let mut state = instantiate_contract();
    let bounty = setup_bounty(&mut state, default_bounty());

    let err = update(
        &mut state,
        bounty.id,
        None,
        None,
        None,
        None,
        Some(TimeInterval::Custom { seconds: 12 }),
        None,
        None,
    )
    .unwrap_err();

    assert_eq!(
        err.message(),
        "Error: custom time interval must be at least 60 seconds"
    );
}

#[test]
fn with_label_longer_than_100_characters_fails() {
    let mut state = instantiate_contract();
    let bounty = setup_bounty(&mut state, default_bounty());

    let label = Some("12345678910".repeat(10));

    let err = update(
        &mut state, bounty.id, label, None, None, None, None, None, None,
    )
    .unwrap_err();

    assert_eq!(
        err.message(),
        "Error: Bounty label cannot be longer than 100 characters"
    );
}

#[test]
fn for_bounty_with_different_owner_fails() {
    let mut state = instantiate_contract();
    let bounty = setup_bounty(
        &mut state,
        Bounty {
            owner: "random".to_string(),
            ..default_bounty()
        },
    );

    let err = update(
        &mut state,
        bounty.id,
        Some("My new bounty".to_string()),
        None,
        None,
        None,
        None,
        None,
        None,
    )
    .unwrap_err();

    assert_eq!(err.message(), "Unauthorized");
}

#[test]
fn for_cancelled_bounty_fails() {
    let mut state = instantiate_contract();
    let bounty = setup_bounty(
        &mut state,
        Bounty {
            status: BountyStatus::Cancelled,
            ..default_bounty()
        },
    );

    let err = update(
        &mut state,
        bounty.id,
        Some("My new bounty".to_string()),
        None,
        None,
        None,
        None,
        None,
        None,
    )
    .unwrap_err();

    assert_eq!(err.message(), "Error: bounty is already cancelled");
}

#[test]
fn with_more_than_10_destinations_fails() {
    let mut state = instantiate_contract();
    let bounty = setup_bounty(&mut state, default_bounty());

    let destinations = vec![
        Destination {
            address: "random".to_string(),
            allocation: Decimal::percent(10),
            msg: None,
        };
        11
    ];

    let err = update(
        &mut state,
        bounty.id,
        None,
        Some(destinations),
        None,
        None,
        None,
        None,
        None,
    )
    .unwrap_err();

    assert_eq!(
        err.message(),
        "Error: no more than 10 destinations can be provided"
    );
}

#[test]
fn with_destination_allocations_less_than_100_percent_fails() {
    let mut state = instantiate_contract();
    let bounty = setup_bounty(&mut state, default_bounty());

    let destinations = vec![
        Destination {
            address: "random".to_string(),
            allocation: Decimal::percent(10),
            msg: None,
        },
        Destination {
            address: "random".to_string(),
            allocation: Decimal::percent(10),
            msg: None,
        },
    ];

    let err = update(
        &mut state,
        bounty.id,
        None,
        Some(destinations),
        None,
        None,
        None,
        None,
        None,
    )
    .unwrap_err();

    assert_eq!(
        err.message(),
        "Error: destination allocations must add up to 1"
    );
}

#[test]
fn with_destination_allocations_more_than_100_percent_fails() {
    let mut state = instantiate_contract();
    let bounty = setup_bounty(&mut state, default_bounty());

    let destinations = vec![
        Destination {
            address: "random".to_string(),
            allocation: Decimal::percent(50),
            msg: None,
        },
        Destination {
            address: "random".to_string(),
            allocation: Decimal::percent(51),
            msg: None,
        },
    ];

    let err = update(
        &mut state,
        bounty.id,
        None,
        Some(destinations),
        None,
        None,
        None,
        None,
        None,
    )
    .unwrap_err();

    assert_eq!(
        err.message(),
        "Error: destination allocations must add up to 1"
    );
}

#[test]
fn with_improper_destination_allocation_total_leaves_destinations_unchanged() {
    let mut state = instantiate_contract();
    let bounty = setup_bounty(&mut state, default_bounty());

    let destinations = vec![
        Destination {
            address: "random-1".to_string(),
            allocation: Decimal::percent(30),
            msg: None,
        },
        Destination {
            address: "random-2".to_string(),
            allocation: Decimal::percent(80),
            msg: None,
        },
    ];

    let err = update(
        &mut state,
        bounty.id,
        None,
        Some(destinations),
        None,
        None,
        None,
        None,
        None,
    )
    .unwrap_err();

    assert_eq!(
        err.message(),
        "Error: destination allocations must add up to 1"
    );

    let updated = get_bounty_handler(&state, bounty.id).unwrap().bounty;
    assert_eq!(updated.destinations, bounty.destinations);
}

#[test]
fn with_destination_with_zero_allocation_fails() {
    let mut state = instantiate_contract();
    let bounty = setup_bounty(&mut state, default_bounty());

    let destinations = vec![
        Destination {
            address: "random".to_string(),
            allocation: Decimal::percent(100),
            msg: None,
        },
        Destination {
            address: "random".to_string(),
            allocation: Decimal::zero(),
            msg: None,
        },
    ];

    let err = update(
        &mut state,
        bounty.id,
        None,
        Some(destinations),
        None,
        None,
        None,
        None,
        None,
    )
    .unwrap_err();

    assert_eq!(
        err.message(),
        "Error: all destination allocations must be greater than 0"
    );
}

#[test]
fn updating_risk_weighted_average_strategy_fails() {
    let mut state = instantiate_contract();
    let existing = Some(SwapAdjustmentStrategy::RiskWeightedAverage {
        model_id: 30,
        base_denom: BaseDenom::Bitcoin,
        position_type: PositionType::Enter,
    });

    let bounty = setup_bounty(
        &mut state,
        Bounty {
            swap_adjustment_strategy: existing,
            ..default_bounty()
        },
    );

    let err = update(
        &mut state,
        bounty.id,
        None,
        None,
        None,
        None,
        None,
        Some(SwapAdjustmentStrategyParams::RiskWeightedAverage {
            base_denom: BaseDenom::Bitcoin,
            position_type: PositionType::Enter,
        }),
        None,
    )
    .unwrap_err();

    assert_eq!(err, ContractError::StrategyChangeInvalid);
}

#[test]
fn changing_risk_weighted_average_strategy_fails() {
    let mut state = instantiate_contract();
    let existing = Some(SwapAdjustmentStrategy::RiskWeightedAverage {
        model_id: 30,
        base_denom: BaseDenom::Bitcoin,
        position_type: PositionType::Enter,
    });

    let bounty = setup_bounty(
        &mut state,
        Bounty {
            swap_adjustment_strategy: existing,
            ..default_bounty()
        },
    );

    let err = update(
        &mut state,
        bounty.id,
        None,
        None,
        None,
        None,
        None,
        Some(SwapAdjustmentStrategyParams::WeightedScale {
            base_receive_amount: 18277,
            multiplier: Decimal::percent(213),
            increase_only: false,
        }),
        None,
    )
    .unwrap_err();

    assert_eq!(err, ContractError::StrategyChangeInvalid);
}

#[test]
fn adding_weighted_scale_swap_adjustment_strategy_fails() {
    let mut state = instantiate_contract();
    let bounty = setup_bounty(&mut state, default_bounty());

    let err = update(
        &mut state,
        bounty.id,
        None,
        None,
        None,
        None,
        None,
        Some(SwapAdjustmentStrategyParams::WeightedScale {
            base_receive_amount: 2732,
            multiplier: Decimal::percent(150),
            increase_only: false,
        }),
        None,
    )
    .unwrap_err();

    assert_eq!(err, ContractError::StrategyChangeInvalid);
}

#[test]
fn updating_swap_amount_and_minimum_receive_amount_fails() {
    let mut state = instantiate_contract();
    let bounty = setup_bounty(&mut state, default_bounty());

    let err = update(
        &mut state,
        bounty.id,
        None,
        None,
        None,
        Some(621837621),
        None,
        None,
        Some(3498473290),
    )
    .unwrap_err();

    assert_eq!(
        err.message(),
        "Error: cannot update swap amount and minimum receive amount at the same time."
    );
}

#[test]
fn updating_swap_amount_and_swap_adjustment_strategy_fails() {
    let mut state = instantiate_contract();
    let bounty = setup_bounty(&mut state, default_bounty());

    let err = update(
        &mut state,
        bounty.id,
        None,
        None,
        None,
        None,
        None,
        Some(SwapAdjustmentStrategyParams::WeightedScale {
            base_receive_amount: 2732,
            multiplier: Decimal::percent(150),
            increase_only: false,
        }),
        Some(436753262),
    )
    .unwrap_err();

    assert_eq!(
        err.message(),
        "Error: cannot update swap amount and swap adjustment strategy at the same time."
    );
}

#[test]
fn updating_swap_amount_updates_minimum_receive_amount() {
    let mut state = instantiate_contract();
    let bounty = setup_bounty(
        &mut state,
        Bounty {
            swap_amount: ONE,
            minimum_receive_amount: Some(TEN),
            ..default_bounty()
        },
    );

    update(
        &mut state,
        bounty.id,
        None,
        None,
        None,
        None,
        None,
        None,
        Some(bounty.swap_amount * 2),
    )
    .unwrap();

    let updated = get_bounty_handler(&state, bounty.id).unwrap().bounty;

    assert_eq!(updated.minimum_receive_amount, Some(TEN * 2));
}

#[test]
fn updating_swap_amount_updates_weighted_scale_swap_adjustment_strategy_base_receive_amount() {
    let mut state = instantiate_contract();
    let bounty = setup_bounty(
        &mut state,
        Bounty {
            swap_adjustment_strategy: Some(SwapAdjustmentStrategy::WeightedScale {
                base_receive_amount: 2732,
                multiplier: Decimal::percent(150),
                increase_only: false,
            }),
            ..default_bounty()
        },
    );

    update(
        &mut state,
        bounty.id,
        None,
        None,
        None,
        None,
        None,
        None,
        Some(bounty.swap_amount * 2),
    )
    .unwrap();

    let updated = get_bounty_handler(&state, bounty.id).unwrap().bounty;

    assert_eq!(
        updated.swap_adjustment_strategy,
        Some(SwapAdjustmentStrategy::WeightedScale {
            base_receive_amount: 2732 * 2,
            multiplier: Decimal::percent(150),
            increase_only: false,
        })
    );
}

#[test]
fn updates_swap_amount() {
    let mut state = instantiate_contract();
    let bounty = setup_bounty(
        &mut state,
        Bounty {
            swap_adjustment_strategy: Some(SwapAdjustmentStrategy::WeightedScale {
                base_receive_amount: 2732,
                multiplier: Decimal::percent(150),
                increase_only: false,
            }),
            minimum_receive_amount: Some(ONE),
            ..default_bounty()
        },
    );

    let swap_amount = bounty.swap_amount * 2;

    update(
        &mut state,
        bounty.id,
        None,
        None,
        None,
        None,
        None,
        None,
        Some(swap_amount),
    )
    .unwrap();

    let updated = get_bounty_handler(&state, bounty.id).unwrap().bounty;

    assert_ne!(bounty.swap_amount, swap_amount);
    assert_eq!(updated.swap_amount, swap_amount);
}

#[test]
fn updates_weighted_scale_swap_adjustment_strategy() {
    let mut state = instantiate_contract();
    let bounty = setup_bounty(
        &mut state,
        Bounty {
            swap_adjustment_strategy: Some(SwapAdjustmentStrategy::WeightedScale {
                base_receive_amount: 2732,
                multiplier: Decimal::percent(150),
                increase_only: false,
            }),
            ..default_bounty()
        },
    );

    let base_receive_amount = 212831;
    let multiplier = Decimal::percent(300);
    let increase_only = true;

    update(
        &mut state,
        bounty.id,
        None,
        None,
        None,
        None,
        None,
        Some(SwapAdjustmentStrategyParams::WeightedScale {
            base_receive_amount,
            multiplier,
            increase_only,
        }),
        None,
    )
    .unwrap();

    let updated = get_bounty_handler(&state, bounty.id).unwrap().bounty;

    assert_eq!(
        updated.swap_adjustment_strategy,
        Some(SwapAdjustmentStrategy::WeightedScale {
            base_receive_amount,
            multiplier,
            increase_only,
        })
    );
}

#[test]
fn updates_the_bounty_label() {
    let mut state = instantiate_contract();
    let bounty = setup_bounty(&mut state, default_bounty());

    let label = Some("123456789".repeat(10));

    update(
        &mut state,
        bounty.id,
        label.clone(),
        None,
        None,
        None,
        None,
        None,
        None,
    )
    .unwrap();

    let updated = get_bounty_handler(&state, bounty.id).unwrap().bounty;

    assert_eq!(updated.label, label);
}

#[test]
fn updates_the_bounty_destinations() {
    let mut state = instantiate_contract();
    let bounty = setup_bounty(&mut state, default_bounty());

    let destinations = vec![
        Destination {
            address: "random".to_string(),
            allocation: Decimal::percent(50),
            msg: None,
        },
        Destination {
            address: "random".to_string(),
            allocation: Decimal::percent(50),
            msg: None,
        },
    ];

    update(
        &mut state,
        bounty.id,
        None,
        Some(destinations.clone()),
        None,
        None,
        None,
        None,
        None,
    )
    .unwrap();

    let updated = get_bounty_handler(&state, bounty.id).unwrap().bounty;

    assert_ne!(updated.destinations, bounty.destinations);
    assert_eq!(updated.destinations, destinations);
}

#[test]
fn sets_the_bounty_destination_to_owner_when_update_list_is_empty() {
    let mut state = instantiate_contract();
    let bounty = setup_bounty(&mut state, default_bounty());

    update(
        &mut state,
        bounty.id,
        None,
        Some(vec![]),
        None,
        None,
        None,
        None,
        None,
    )
    .unwrap();

    let updated = get_bounty_handler(&state, bounty.id).unwrap().bounty;

    assert_eq!(
        updated.destinations,
        vec![Destination {
            address: bounty.owner,
            allocation: Decimal::percent(100),
            msg: None,
        }]
    );
}

#[test]
fn updates_slippage_tolerance() {
    let mut state = instantiate_contract();
    let bounty = setup_bounty(&mut state, default_bounty());

    let slippage_tolerance = Decimal::percent(1);

    update(
        &mut state,
        bounty.id,
        None,
        None,
        Some(slippage_tolerance),
        None,
        None,
        None,
        None,
    )
    .unwrap();

    let updated = get_bounty_handler(&state, bounty.id).unwrap().bounty;

    assert_eq!(updated.slippage_tolerance, slippage_tolerance);
}

#[test]
fn updates_minimum_receive_amount() {
    let mut state = instantiate_contract();
    let bounty = setup_bounty(&mut state, default_bounty());

    let minimum_receive_amount = Some(12387);

    update(
        &mut state,
        bounty.id,
        None,
        None,
        None,
        minimum_receive_amount,
        None,
        None,
        None,
    )
    .unwrap();

    let updated = get_bounty_handler(&state, bounty.id).unwrap().bounty;

    assert_eq!(updated.minimum_receive_amount, minimum_receive_amount);
}

#[test]
fn updates_time_interval() {
    let mut state = instantiate_contract();
    let bounty = setup_bounty(&mut state, default_bounty());

    let time_interval = TimeInterval::Custom { seconds: 31321 };

    update(
        &mut state,
        bounty.id,
        None,
        None,
        None,
        None,
        Some(time_interval),
        None,
        None,
    )
    .unwrap();

    let updated = get_bounty_handler(&state, bounty.id).unwrap().bounty;

    assert_eq!(updated.time_interval, time_interval);
}

#[test]
fn updates_the_trigger_target_time() {
    let mut state = instantiate_contract();
    let bounty = setup_bounty(&mut state, default_bounty());

    let time_interval = TimeInterval::Custom { seconds: 60 };

    update(
        &mut state,
        bounty.id,
        None,
        None,
        None,
        None,
        Some(time_interval),
        None,
        None,
    )
    .unwrap();

    let updated = get_bounty_handler(&state, bounty.id).unwrap().bounty;

    match updated.trigger {
        Some(TriggerConfiguration::Time { target_time }) => {
            assert_eq!(
                target_time,
                get_next_target_time(MOCK_TIME, MOCK_TIME, &time_interval)
            )
        }
        _ => panic!("expected trigger to be of type Time"),
    }
}

#[test]
fn publishes_bounty_updated_event() {
    let mut state = instantiate_contract();
    let bounty = setup_bounty(&mut state, default_bounty());

    let new_time_interval = TimeInterval::Custom { seconds: 60 };
    let new_label = "new vault";
    let new_destinations = vec![
        Destination {
            address: "random-1".to_string(),
            allocation: Decimal::percent(50),
            msg: None,
        },
        Destination {
            address: "random-2".to_string(),
            allocation: Decimal::percent(50),
            msg: None,
        },
    ];
    let new_slippage_tolerance = Decimal::percent(12);
    let new_minimum_receive_amount = 2312312231u128;

    update(
        &mut state,
        bounty.id,
        Some(new_label.to_string()),
        Some(new_destinations.clone()),
        Some(new_slippage_tolerance),
        Some(new_minimum_receive_amount),
        Some(new_time_interval),
        None,
        None,
    )
    .unwrap();

    let events = get_events_by_resource_id_handler(&state, bounty.id, None, None, None)
        .unwrap()
        .events;

    assert_eq!(
        events.first().unwrap(),
        &Event {
            id: 1,
            resource_id: bounty.id,
            timestamp: MOCK_TIME,
            block_height: 12345,
            data: EventData::BountyUpdated {
                updates: vec![
                    Update::Label {
                        old_value: bounty.label.clone(),
                        new_value: new_label.to_string(),
                    },
                    Update::Destinations {
                        old_value: bounty.destinations.clone(),
                        new_value: new_destinations,
                    },
                    Update::SlippageTolerance {
                        old_value: bounty.slippage_tolerance,
                        new_value: new_slippage_tolerance,
                    },
                    Update::MinimumReceiveAmount {
                        old_value: None,
                        new_value: Some(new_minimum_receive_amount),
                    },
                    Update::Interval {
                        old_value: bounty.time_interval,
                        new_value: new_time_interval,
                    },
                    Update::Trigger {
                        old_value: TriggerConfiguration::Time {
                            target_time: MOCK_TIME + 86400,
                        },
                        new_value: TriggerConfiguration::Time {
                            target_time: get_next_target_time(
                                MOCK_TIME,
                                MOCK_TIME,
                                &new_time_interval
                            ),
                        },
                    },
                ]
            }
        }
    )
}
