//! Escrow disbursement: due dates, the performance fee, and idempotence.

use dca::bounty::{Bounty, BountyStatus};
use dca::coin::Coin;
use dca::config::FeeCollector;
use dca::destination::Destination;
use dca::event::{BlockInfo, Event, EventData};
use dca::handlers::cancel_bounty::cancel_bounty_handler;
use dca::handlers::disburse_escrow::disburse_escrow_handler;
use dca::handlers::get_bounty::{
    get_bounty_handler, get_bounty_performance_handler, get_events_by_resource_id_handler,
};
use dca::handlers::instantiate::instantiate_handler;
use dca::math::Decimal;
use dca::msg::{InstantiateMsg, MessageInfo};
use dca::msgs::{OutMsg, OutMsgBody, AFTER_FAILED_AUTOMATION_REPLY_ID};
use dca::queries::get_disburse_escrow_tasks;
use dca::state::{migrate_bounty, save_disburse_escrow_task, State};
use dca::strategy::PerformanceAssessmentStrategy;
use dca::time::TimeInterval;
use dca::trigger::TriggerConfiguration;

const ADMIN: &str = "admin";
const USER: &str = "user";
const DENOM_UKUJI: &str = "ukuji";
const DENOM_UUSK: &str = "uusk";
const ONE: u128 = 1_000_000;
const TEN: u128 = 10_000_000;
const MOCK_TIME: u64 = 1_571_797_419;
const PERFORMANCE_FEE_ATOMICS: u128 = 200_000_000_000_000_000;
const DECIMAL_FRACTIONAL: u128 = 1_000_000_000_000_000_000;

fn mock_block() -> BlockInfo {
    BlockInfo {
        height: 12345,
        time: MOCK_TIME,
    }
}

fn instantiate_contract() -> State {
    instantiate_handler(InstantiateMsg {
        admin: ADMIN.to_string(),
        executors: vec![ADMIN.to_string()],
        fee_collectors: vec![FeeCollector {
            address: "fee_collector".to_string(),
            allocation: Decimal::percent(100),
        }],
        automation_fee_percent: Decimal::percent(0),
        paused: false,
        exchange_contract_address: "swap-contract".to_string(),
    })
    .unwrap()
}

fn default_bounty() -> Bounty {
    Bounty {
        id: 0,
        created_at: MOCK_TIME,
        started_at: None,
        owner: USER.to_string(),
        label: Some("bounty".to_string()),
        destinations: vec![Destination {
            address: USER.to_string(),
            allocation: Decimal::percent(100),
            msg: None,
        }],
        status: BountyStatus::Active,
        balance: Coin::new(TEN, DENOM_UKUJI),
        target_denom: DENOM_UUSK.to_string(),
        route: None,
        swap_amount: ONE,
        slippage_tolerance: Decimal::percent(10),
        minimum_receive_amount: None,
        time_interval: TimeInterval::Daily,
        escrow_level: Decimal::zero(),
        deposited_amount: Coin::new(TEN, DENOM_UKUJI),
        swapped_amount: Coin::new(0, DENOM_UKUJI),
        received_amount: Coin::new(0, DENOM_UUSK),
        escrowed_amount: Coin::new(0, DENOM_UUSK),
        performance_assessment_strategy: None,
        swap_adjustment_strategy: None,
        trigger: Some(TriggerConfiguration::Time {
            target_time: MOCK_TIME + 86400,
        }),
    }
}

fn setup_bounty(state: &mut State, bounty: Bounty) -> Bounty {
    let copy = bounty.clone();
    migrate_bounty(state, bounty).unwrap();
    copy
}

fn admin_info() -> MessageInfo {
    MessageInfo {
        sender: ADMIN.to_string(),
        funds: vec![],
    }
}

#[test]
fn when_disburse_escrow_task_is_not_due_fails() {
    let mut state = instantiate_contract();
    let bounty = setup_bounty(
        &mut state,
        Bounty {
            escrowed_amount: Coin::new(ONE, DENOM_UUSK),
            ..default_bounty()
        },
    );

    save_disburse_escrow_task(&mut state, bounty.id, MOCK_TIME + 10).unwrap();

    let err = disburse_escrow_handler(
        &mut state,
        mock_block(),
        &admin_info(),
        bounty.id,
        Decimal::one(),
    )
    .unwrap_err();

    assert!(err
        .message()
        .contains("Error: Escrow is not available to be disbursed"));
}

#[test]
fn caches_bounty_id_for_after_automation_handler() {
    let mut state = instantiate_contract();
    let bounty = setup_bounty(
        &mut state,
        Bounty {
            escrowed_amount: Coin::new(ONE, DENOM_UUSK),
            ..default_bounty()
        },
    );

    save_disburse_escrow_task(&mut state, bounty.id, MOCK_TIME - 10).unwrap();

    disburse_escrow_handler(
        &mut state,
        mock_block(),
        &admin_info(),
        bounty.id,
        Decimal::one(),
    )
    .unwrap();

    assert_eq!(state.bounty_id_cache, Some(bounty.id));
}

#[test]
fn when_disburse_escrow_task_is_due_succeeds() {
    let mut state = instantiate_contract();
    let bounty = setup_bounty(
        &mut state,
        Bounty {
            escrowed_amount: Coin::new(ONE, DENOM_UUSK),
            ..default_bounty()
        },
    );

    save_disburse_escrow_task(&mut state, bounty.id, MOCK_TIME - 10).unwrap();

    let response = disburse_escrow_handler(
        &mut state,
        mock_block(),
        &admin_info(),
        bounty.id,
        Decimal::one(),
    )
    .unwrap();

    assert!(!response.messages.is_empty());
}

#[test]
fn when_escrowed_balance_is_empty_sends_no_messages() {
    let mut state = instantiate_contract();
    let bounty = setup_bounty(
        &mut state,
        Bounty {
            escrowed_amount: Coin::new(0, DENOM_UUSK),
            ..default_bounty()
        },
    );

    let response = disburse_escrow_handler(
        &mut state,
        mock_block(),
        &admin_info(),
        bounty.id,
        Decimal::one(),
    )
    .unwrap();

    assert!(response.messages.is_empty());
}

#[test]
fn when_no_fee_is_owed_returns_entire_escrow_to_owner() {
    let mut state = instantiate_contract();
    let bounty = setup_bounty(
        &mut state,
        Bounty {
            status: BountyStatus::Inactive,
            deposited_amount: Coin::new(TEN, DENOM_UKUJI),
            escrowed_amount: Coin::new(ONE / 20, DENOM_UUSK),
            performance_assessment_strategy: Some(
                PerformanceAssessmentStrategy::CompareToStandardDca {
                    swapped_amount: Coin::new(ONE, DENOM_UKUJI),
                    received_amount: Coin::new(ONE, DENOM_UUSK),
                },
            ),
            ..default_bounty()
        },
    );

    let response = disburse_escrow_handler(
        &mut state,
        mock_block(),
        &admin_info(),
        bounty.id,
        Decimal::one(),
    )
    .unwrap();

    assert!(response.messages.contains(&OutMsg::reply_always(
        OutMsgBody::BankSend {
            to_address: bounty.destinations[0].address.clone(),
            amount: bounty.escrowed_amount,
        },
        AFTER_FAILED_AUTOMATION_REPLY_ID
    )));
}

#[test]
fn when_large_fee_is_owed_returns_entire_escrow_to_fee_collector() {
    let mut state = instantiate_contract();
    let bounty = setup_bounty(
        &mut state,
        Bounty {
            status: BountyStatus::Inactive,
            swapped_amount: Coin::new(TEN, DENOM_UKUJI),
            received_amount: Coin::new(TEN, DENOM_UUSK),
            deposited_amount: Coin::new(TEN, DENOM_UKUJI),
            escrowed_amount: Coin::new(ONE / 20, DENOM_UUSK),
            performance_assessment_strategy: Some(
                PerformanceAssessmentStrategy::CompareToStandardDca {
                    swapped_amount: Coin::new(ONE, DENOM_UKUJI),
                    received_amount: Coin::new(ONE, DENOM_UUSK),
                },
            ),
            ..default_bounty()
        },
    );

    let ten_decimal = Decimal::from_atomics(10 * DECIMAL_FRACTIONAL);

    let response = disburse_escrow_handler(
        &mut state,
        mock_block(),
        &admin_info(),
        bounty.id,
        ten_decimal,
    )
    .unwrap();

    assert_eq!(
        response.messages.first().unwrap(),
        &OutMsg::new(OutMsgBody::BankSend {
            to_address: "fee_collector".to_string(),
            amount: bounty.escrowed_amount,
        })
    );
}

#[test]
fn publishes_escrow_disbursed_event() {
    let mut state = instantiate_contract();
    let bounty = setup_bounty(
        &mut state,
        Bounty {
            status: BountyStatus::Inactive,
            swapped_amount: Coin::new(TEN, DENOM_UKUJI),
            received_amount: Coin::new(TEN + ONE, DENOM_UUSK),
            deposited_amount: Coin::new(TEN, DENOM_UKUJI),
            escrowed_amount: Coin::new((TEN + ONE) / 20, DENOM_UUSK),
            performance_assessment_strategy: Some(
                PerformanceAssessmentStrategy::CompareToStandardDca {
                    swapped_amount: Coin::new(TEN, DENOM_UKUJI),
                    received_amount: Coin::new(TEN, DENOM_UUSK),
                },
            ),
            ..default_bounty()
        },
    );

    disburse_escrow_handler(
        &mut state,
        mock_block(),
        &admin_info(),
        bounty.id,
        Decimal::one(),
    )
    .unwrap();

    let events = get_events_by_resource_id_handler(&state, bounty.id, None, None, None)
        .unwrap()
        .events;

    let performance_fee = ONE * PERFORMANCE_FEE_ATOMICS / DECIMAL_FRACTIONAL;

    assert_eq!(
        events.get(0).unwrap(),
        &Event {
            id: 1,
            resource_id: bounty.id,
            timestamp: MOCK_TIME,
            block_height: 12345,
            data: EventData::BountyEscrowDisbursed {
                amount_disbursed: Coin::new(
                    bounty.escrowed_amount.amount - performance_fee,
                    DENOM_UUSK
                ),
                performance_fee: Coin::new(performance_fee, DENOM_UUSK),
            }
        }
    );
}

#[test]
fn sets_escrow_balance_to_zero() {
    let mut state = instantiate_contract();
    let bounty = setup_bounty(
        &mut state,
        Bounty {
            status: BountyStatus::Inactive,
            swapped_amount: Coin::new(TEN, DENOM_UKUJI),
            received_amount: Coin::new(TEN + ONE, DENOM_UUSK),
            deposited_amount: Coin::new(TEN, DENOM_UKUJI),
            escrowed_amount: Coin::new((TEN + ONE) / 20, DENOM_UUSK),
            performance_assessment_strategy: Some(
                PerformanceAssessmentStrategy::CompareToStandardDca {
                    swapped_amount: Coin::new(TEN, DENOM_UKUJI),
                    received_amount: Coin::new(TEN, DENOM_UUSK),
                },
            ),
            ..default_bounty()
        },
    );

    disburse_escrow_handler(
        &mut state,
        mock_block(),
        &admin_info(),
        bounty.id,
        Decimal::one(),
    )
    .unwrap();

    let updated = get_bounty_handler(&state, bounty.id).unwrap().bounty;

    assert_eq!(updated.escrowed_amount, Coin::new(0, DENOM_UUSK));
}

#[test]
fn deletes_disburse_escrow_task() {
    let mut state = instantiate_contract();
    let bounty = setup_bounty(
        &mut state,
        Bounty {
            status: BountyStatus::Inactive,
            swapped_amount: Coin::new(TEN, DENOM_UKUJI),
            received_amount: Coin::new(TEN + ONE, DENOM_UUSK),
            deposited_amount: Coin::new(TEN, DENOM_UKUJI),
            escrowed_amount: Coin::new((TEN + ONE) / 20, DENOM_UUSK),
            performance_assessment_strategy: Some(
                PerformanceAssessmentStrategy::CompareToStandardDca {
                    swapped_amount: Coin::new(TEN, DENOM_UKUJI),
                    received_amount: Coin::new(TEN, DENOM_UUSK),
                },
            ),
            ..default_bounty()
        },
    );

    save_disburse_escrow_task(&mut state, bounty.id, MOCK_TIME - 10).unwrap();

    let tasks_before = get_disburse_escrow_tasks(&state, MOCK_TIME, None);

    disburse_escrow_handler(
        &mut state,
        mock_block(),
        &admin_info(),
        bounty.id,
        Decimal::one(),
    )
    .unwrap();

    let tasks_after = get_disburse_escrow_tasks(&state, MOCK_TIME, None);

    assert_eq!(tasks_before.len(), 1);
    assert_eq!(tasks_after.len(), 0);
}

#[test]
fn disbursing_escrow_twice_in_a_row_is_a_no_op_the_second_time() {
    let mut state = instantiate_contract();
    let bounty = setup_bounty(
        &mut state,
        Bounty {
            escrowed_amount: Coin::new(ONE, DENOM_UUSK),
            ..default_bounty()
        },
    );

    let first = disburse_escrow_handler(
        &mut state,
        mock_block(),
        &admin_info(),
        bounty.id,
        Decimal::one(),
    )
    .unwrap();
    let events_after_first =
        get_events_by_resource_id_handler(&state, bounty.id, None, None, None)
            .unwrap()
            .events
            .len();

    let second = disburse_escrow_handler(
        &mut state,
        mock_block(),
        &admin_info(),
        bounty.id,
        Decimal::one(),
    )
    .unwrap();
    let events_after_second =
        get_events_by_resource_id_handler(&state, bounty.id, None, None, None)
            .unwrap()
            .events
            .len();

    assert!(!first.messages.is_empty());
    assert!(second.messages.is_empty());
    assert_eq!(events_after_first, events_after_second);
    assert_eq!(
        get_bounty_handler(&state, bounty.id).unwrap().bounty.escrowed_amount.amount,
        0
    );
}

#[test]
fn cancel_then_disburse_escrow_round_trip() {
    let mut state = instantiate_contract();
    let bounty = setup_bounty(
        &mut state,
        Bounty {
            escrowed_amount: Coin::new(ONE, DENOM_UUSK),
            ..default_bounty()
        },
    );

    cancel_bounty_handler(&mut state, mock_block(), &admin_info(), bounty.id).unwrap();

    let due = bounty.get_expected_execution_completed_date(MOCK_TIME);
    assert_eq!(get_disburse_escrow_tasks(&state, due, None), vec![bounty.id]);

    let before = BlockInfo {
        height: 12346,
        time: due - 1,
    };
    let err =
        disburse_escrow_handler(&mut state, before, &admin_info(), bounty.id, Decimal::one())
            .unwrap_err();
    assert!(err
        .message()
        .contains("Error: Escrow is not available to be disbursed"));

    let at_due = BlockInfo {
        height: 12347,
        time: due,
    };
    let response =
        disburse_escrow_handler(&mut state, at_due, &admin_info(), bounty.id, Decimal::one())
            .unwrap();
    assert!(!response.messages.is_empty());
    assert!(get_disburse_escrow_tasks(&state, due, None).is_empty());

    let again =
        disburse_escrow_handler(&mut state, at_due, &admin_info(), bounty.id, Decimal::one())
            .unwrap();
    assert!(again.messages.is_empty());
}

#[test]
fn if_bounty_has_no_performance_assessment_strategy_fails() {
    let mut state = instantiate_contract();
    let bounty = setup_bounty(&mut state, default_bounty());

    let err = get_bounty_performance_handler(&state, bounty.id, Decimal::one()).unwrap_err();

    assert_eq!(
        err.message(),
        "Generic error: Bounty 0 does not have a performance assessment strategy"
    );
}

#[test]
fn performance_fee_and_factor_match() {
    let mut state = instantiate_contract();
    let standard_received_amount = TEN - ONE;

    let bounty = setup_bounty(
        &mut state,
        Bounty {
            swapped_amount: Coin::new(TEN, DENOM_UKUJI),
            received_amount: Coin::new(TEN, DENOM_UUSK),
            escrowed_amount: Coin::new(TEN, DENOM_UUSK),
            deposited_amount: Coin::new(TEN, DENOM_UKUJI),
            escrow_level: Decimal::percent(5),
            performance_assessment_strategy: Some(
                PerformanceAssessmentStrategy::CompareToStandardDca {
                    swapped_amount: Coin::new(TEN, DENOM_UKUJI),
                    received_amount: Coin::new(standard_received_amount, DENOM_UUSK),
                },
            ),
            ..default_bounty()
        },
    );

    let response = get_bounty_performance_handler(&state, bounty.id, Decimal::one()).unwrap();

    let scaled = standard_received_amount * response.factor.atomics / DECIMAL_FRACTIONAL;
    let expected =
        (scaled - standard_received_amount) * PERFORMANCE_FEE_ATOMICS / DECIMAL_FRACTIONAL + 1;

    assert_eq!(response.fee, Coin::new(expected, DENOM_UUSK));
}
