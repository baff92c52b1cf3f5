//! The execution-continuation protocol: issuing swaps, settling fills,
//! classifying failures, and resolving queued post-execution actions.

use dca::bounty::{Bounty, BountyStatus};
use dca::coin::Coin;
use dca::config::FeeCollector;
use dca::destination::Destination;
use dca::disbursement::get_disbursement_messages;
use dca::event::{BlockInfo, EventBuilder, EventData, ExecutionSkippedReason};
use dca::handlers::after_fin_swap::{after_fin_swap, SwapResult};
use dca::handlers::deposit::deposit_handler;
use dca::handlers::execute_trigger::execute_trigger_handler;
use dca::handlers::get_bounty::{get_bounty_handler, get_events_by_resource_id_handler};
use dca::handlers::handle_failed_automation::handle_failed_automation_handler;
use dca::handlers::instantiate::instantiate_handler;
use dca::math::Decimal;
use dca::msg::{InstantiateMsg, MessageInfo};
use dca::msgs::{
    OutMsg, OutMsgBody, ReplyOn, AFTER_FAILED_AUTOMATION_REPLY_ID, AFTER_SWAP_REPLY_ID,
};
use dca::state::{migrate_bounty, PostExecutionActionCacheEntry, State};
use dca::strategy::PerformanceAssessmentStrategy;
use dca::time::TimeInterval;
use dca::trigger::TriggerConfiguration;

const ADMIN: &str = "admin";
const USER: &str = "user";
const DENOM_UKUJI: &str = "ukuji";
const DENOM_UUSK: &str = "uusk";
const ONE: u128 = 1_000_000;
const TEN: u128 = 10_000_000;
const MOCK_TIME: u64 = 1_571_797_419;

fn mock_block() -> BlockInfo {
    BlockInfo {
        height: 12345,
        time: MOCK_TIME,
    }
}

fn instantiate_contract() -> State {
    instantiate_handler(InstantiateMsg {
        admin: ADMIN.to_string(),
        executors: vec![ADMIN.to_string()],
        fee_collectors: vec![FeeCollector {
            address: "fee_collector".to_string(),
            allocation: Decimal::percent(100),
        }],
        automation_fee_percent: Decimal::percent(0),
        paused: false,
        exchange_contract_address: "swap-contract".to_string(),
    })
    .unwrap()
}

fn default_bounty() -> Bounty {
    Bounty {
        id: 0,
        created_at: MOCK_TIME,
        started_at: None,
        owner: USER.to_string(),
        label: Some("bounty".to_string()),
        destinations: vec![Destination {
            address: USER.to_string(),
            allocation: Decimal::percent(100),
            msg: None,
        }],
        status: BountyStatus::Active,
        balance: Coin::new(TEN, DENOM_UKUJI),
        target_denom: DENOM_UUSK.to_string(),
        route: None,
        swap_amount: ONE,
        slippage_tolerance: Decimal::percent(10),
        minimum_receive_amount: None,
        time_interval: TimeInterval::Daily,
        escrow_level: Decimal::zero(),
        deposited_amount: Coin::new(TEN, DENOM_UKUJI),
        swapped_amount: Coin::new(0, DENOM_UKUJI),
        received_amount: Coin::new(0, DENOM_UUSK),
        escrowed_amount: Coin::new(0, DENOM_UUSK),
        performance_assessment_strategy: None,
        swap_adjustment_strategy: None,
        trigger: Some(TriggerConfiguration::Time {
            target_time: MOCK_TIME + 86400,
        }),
    }
}

fn setup_bounty(state: &mut State, bounty: Bounty) -> Bounty {
    let copy = bounty.clone();
    migrate_bounty(state, bounty).unwrap();
    copy
}

fn queue_of(state: &State, bounty_id: u128) -> Vec<PostExecutionActionCacheEntry> {
    for q in &state.post_action_queues {
        if q.bounty_id == bounty_id {
            return q.entries.clone();
        }
    }
    vec![]
}

fn forwarding_destinations() -> Vec<Destination> {
    vec![
        Destination {
            address: "owner".to_string(),
            allocation: Decimal::percent(30),
            msg: None,
        },
        Destination {
            address: "contract".to_string(),
            allocation: Decimal::percent(80),
            msg: Some("{\"delegate\":{}}".to_string()),
        },
    ]
}

#[test]
fn removes_appropriate_post_execution_action_cache_entry_on_success() {
    let mut state = instantiate_contract();
    let destinations = forwarding_destinations();
    let bounty = setup_bounty(
        &mut state,
        Bounty {
            destinations: destinations.clone(),
            ..default_bounty()
        },
    );

    get_disbursement_messages(&mut state, &bounty, bounty.swap_amount).unwrap();
    state.bounty_id_cache = Some(bounty.id);

    handle_failed_automation_handler(&mut state, mock_block(), true).unwrap();

    let funds = Coin::new(bounty.swap_amount * 80 / 100, DENOM_UUSK);

    assert_eq!(
        queue_of(&state, bounty.id),
        vec![PostExecutionActionCacheEntry {
            msg: OutMsg::reply_always(
                OutMsgBody::Execute {
                    contract_addr: destinations[1].address.clone(),
                    msg: destinations[1].msg.clone().unwrap(),
                    funds: funds.clone(),
                },
                AFTER_FAILED_AUTOMATION_REPLY_ID
            ),
            funds,
        }]
    );
}

#[test]
fn sends_no_message_on_success() {
    let mut state = instantiate_contract();
    let bounty = setup_bounty(
        &mut state,
        Bounty {
            destinations: forwarding_destinations(),
            ..default_bounty()
        },
    );

    get_disbursement_messages(&mut state, &bounty, bounty.swap_amount).unwrap();
    state.bounty_id_cache = Some(bounty.id);

    let response = handle_failed_automation_handler(&mut state, mock_block(), true).unwrap();

    assert!(response.messages.is_empty());
}

#[test]
fn removes_appropriate_post_execution_action_cache_entry_on_failure() {
    let mut state = instantiate_contract();
    let destinations = forwarding_destinations();
    let bounty = setup_bounty(
        &mut state,
        Bounty {
            destinations: destinations.clone(),
            ..default_bounty()
        },
    );

    get_disbursement_messages(&mut state, &bounty, bounty.swap_amount).unwrap();
    state.bounty_id_cache = Some(bounty.id);

    handle_failed_automation_handler(&mut state, mock_block(), false).unwrap();

    let funds = Coin::new(bounty.swap_amount * 80 / 100, DENOM_UUSK);

    assert_eq!(
        queue_of(&state, bounty.id),
        vec![PostExecutionActionCacheEntry {
            msg: OutMsg::reply_always(
                OutMsgBody::Execute {
                    contract_addr: destinations[1].address.clone(),
                    msg: destinations[1].msg.clone().unwrap(),
                    funds: funds.clone(),
                },
                AFTER_FAILED_AUTOMATION_REPLY_ID
            ),
            funds,
        }]
    );
}

#[test]
fn creates_post_execution_action_failed_event_on_failure() {
    let mut state = instantiate_contract();
    let destinations = vec![
        Destination {
            address: "contract1".to_string(),
            allocation: Decimal::percent(30),
            msg: Some("{\"invoke\":{}}".to_string()),
        },
        Destination {
            address: "contract2".to_string(),
            allocation: Decimal::percent(80),
            msg: Some("{\"invoke\":{}}".to_string()),
        },
    ];
    let bounty = setup_bounty(
        &mut state,
        Bounty {
            destinations: destinations.clone(),
            ..default_bounty()
        },
    );

    get_disbursement_messages(&mut state, &bounty, bounty.swap_amount).unwrap();
    state.bounty_id_cache = Some(bounty.id);

    handle_failed_automation_handler(&mut state, mock_block(), false).unwrap();

    let events = get_events_by_resource_id_handler(&state, bounty.id, None, None, None)
        .unwrap()
        .events;

    let funds = Coin::new(bounty.swap_amount * 30 / 100, DENOM_UUSK);

    assert_eq!(
        events[0],
        EventBuilder::new(
            bounty.id,
            mock_block(),
            EventData::BountyPostExecutionActionFailed {
                msg: OutMsg::reply_always(
                    OutMsgBody::Execute {
                        contract_addr: destinations[0].address.clone(),
                        msg: destinations[0].msg.clone().unwrap(),
                        funds: funds.clone(),
                    },
                    AFTER_FAILED_AUTOMATION_REPLY_ID
                ),
                funds,
            },
        )
        .build(1)
    )
}

#[test]
fn sends_funds_to_vault_owner_on_failure() {
    let mut state = instantiate_contract();
    let destinations = vec![
        Destination {
            address: "contract1".to_string(),
            allocation: Decimal::percent(30),
            msg: Some("{\"invoke\":{}}".to_string()),
        },
        Destination {
            address: "contract2".to_string(),
            allocation: Decimal::percent(80),
            msg: Some("{\"invoke\":{}}".to_string()),
        },
    ];
    let bounty = setup_bounty(
        &mut state,
        Bounty {
            destinations,
            ..default_bounty()
        },
    );

    get_disbursement_messages(&mut state, &bounty, bounty.swap_amount).unwrap();
    state.bounty_id_cache = Some(bounty.id);

    let queue_before = queue_of(&state, bounty.id).len();

    let response = handle_failed_automation_handler(&mut state, mock_block(), false).unwrap();

    let queue_after = queue_of(&state, bounty.id).len();

    assert_eq!(
        response.messages,
        vec![OutMsg::new(OutMsgBody::BankSend {
            to_address: bounty.owner.clone(),
            amount: Coin::new(bounty.swap_amount * 30 / 100, DENOM_UUSK),
        })]
    );
    assert_eq!(queue_before, 2);
    assert_eq!(queue_after, 1);
}

#[test]
fn executing_a_due_trigger_issues_the_swap_call() {
    let mut state = instantiate_contract();
    let bounty = setup_bounty(
        &mut state,
        Bounty {
            trigger: Some(TriggerConfiguration::Time {
                target_time: MOCK_TIME,
            }),
            ..default_bounty()
        },
    );

    let response =
        execute_trigger_handler(&mut state, mock_block(), bounty.id, Decimal::one()).unwrap();

    assert_eq!(
        response.messages,
        vec![OutMsg::reply_always(
            OutMsgBody::Swap {
                contract_addr: "swap-contract".to_string(),
                swap_amount: Coin::new(ONE, DENOM_UKUJI),
                target_denom: DENOM_UUSK.to_string(),
                slippage_tolerance: Decimal::percent(10),
                minimum_receive_amount: None,
                route: None,
            },
            AFTER_SWAP_REPLY_ID
        )]
    );
    let updated = get_bounty_handler(&state, bounty.id).unwrap().bounty;
    assert_eq!(updated.trigger, None);
}

#[test]
fn executing_before_the_target_time_fails() {
    let mut state = instantiate_contract();
    let bounty = setup_bounty(&mut state, default_bounty());

    let err = execute_trigger_handler(&mut state, mock_block(), bounty.id, Decimal::one())
        .unwrap_err();

    assert_eq!(err.message(), "Error: trigger execution time has not yet elapsed");
}

#[test]
fn settling_a_fill_decrements_balance_by_the_swap_amount() {
    let mut state = instantiate_contract();
    let bounty = setup_bounty(
        &mut state,
        Bounty {
            trigger: Some(TriggerConfiguration::Time {
                target_time: MOCK_TIME,
            }),
            ..default_bounty()
        },
    );

    execute_trigger_handler(&mut state, mock_block(), bounty.id, Decimal::one()).unwrap();
    after_fin_swap(
        &mut state,
        mock_block(),
        SwapResult::Filled {
            sent: ONE,
            received: 2 * ONE,
        },
    )
    .unwrap();

    let updated = get_bounty_handler(&state, bounty.id).unwrap().bounty;

    assert_eq!(updated.balance.amount, bounty.balance.amount - bounty.swap_amount);
    assert_eq!(updated.swapped_amount.amount, ONE);
    assert_eq!(updated.received_amount.amount, 2 * ONE);
    assert_eq!(updated.status, BountyStatus::Active);
    assert_eq!(
        updated.trigger,
        Some(TriggerConfiguration::Time {
            target_time: MOCK_TIME + 86400,
        })
    );
    assert_eq!(updated.started_at, Some(MOCK_TIME));
}

#[test]
fn settling_a_fill_that_empties_the_balance_sets_the_vault_inactive() {
    let mut state = instantiate_contract();
    let bounty = setup_bounty(
        &mut state,
        Bounty {
            balance: Coin::new(ONE, DENOM_UKUJI),
            trigger: Some(TriggerConfiguration::Time {
                target_time: MOCK_TIME,
            }),
            ..default_bounty()
        },
    );

    execute_trigger_handler(&mut state, mock_block(), bounty.id, Decimal::one()).unwrap();
    after_fin_swap(
        &mut state,
        mock_block(),
        SwapResult::Filled {
            sent: ONE,
            received: 2 * ONE,
        },
    )
    .unwrap();

    let updated = get_bounty_handler(&state, bounty.id).unwrap().bounty;

    assert_eq!(updated.balance.amount, 0);
    assert_eq!(updated.status, BountyStatus::Inactive);
}

#[test]
fn skipped_execution_reschedules_one_interval_past_the_previous_target() {
    let mut state = instantiate_contract();
    let previous_target = MOCK_TIME - 5000;
    let bounty = setup_bounty(
        &mut state,
        Bounty {
            trigger: Some(TriggerConfiguration::Time {
                target_time: previous_target,
            }),
            ..default_bounty()
        },
    );

    execute_trigger_handler(&mut state, mock_block(), bounty.id, Decimal::one()).unwrap();
    after_fin_swap(
        &mut state,
        mock_block(),
        SwapResult::Failed {
            error: "dispatch: submessages: Max spread exceeded".to_string(),
        },
    )
    .unwrap();

    let updated = get_bounty_handler(&state, bounty.id).unwrap().bounty;

    assert_eq!(
        updated.trigger,
        Some(TriggerConfiguration::Time {
            target_time: previous_target + 86400,
        })
    );

    let events = get_events_by_resource_id_handler(&state, bounty.id, None, None, None)
        .unwrap()
        .events;

    assert!(matches!(
        events.last().unwrap().data,
        EventData::BountyExecutionSkipped {
            reason: ExecutionSkippedReason::SlippageToleranceExceeded,
        }
    ));
}

#[test]
fn unknown_venue_error_is_classified_as_unknown_failure() {
    let mut state = instantiate_contract();
    let bounty = setup_bounty(
        &mut state,
        Bounty {
            trigger: Some(TriggerConfiguration::Time {
                target_time: MOCK_TIME,
            }),
            ..default_bounty()
        },
    );

    execute_trigger_handler(&mut state, mock_block(), bounty.id, Decimal::one()).unwrap();
    after_fin_swap(
        &mut state,
        mock_block(),
        SwapResult::Failed {
            error: "something else went wrong".to_string(),
        },
    )
    .unwrap();

    let events = get_events_by_resource_id_handler(&state, bounty.id, None, None, None)
        .unwrap()
        .events;

    assert!(matches!(
        events.last().unwrap().data,
        EventData::BountyExecutionSkipped {
            reason: ExecutionSkippedReason::UnknownFailure,
        }
    ));
}

#[test]
fn insufficient_funds_venue_error_is_classified() {
    let mut state = instantiate_contract();
    let bounty = setup_bounty(
        &mut state,
        Bounty {
            trigger: Some(TriggerConfiguration::Time {
                target_time: MOCK_TIME,
            }),
            ..default_bounty()
        },
    );

    execute_trigger_handler(&mut state, mock_block(), bounty.id, Decimal::one()).unwrap();
    after_fin_swap(
        &mut state,
        mock_block(),
        SwapResult::Failed {
            error: "venue says: Insufficient funds in pool".to_string(),
        },
    )
    .unwrap();

    let events = get_events_by_resource_id_handler(&state, bounty.id, None, None, None)
        .unwrap()
        .events;

    assert!(matches!(
        events.last().unwrap().data,
        EventData::BountyExecutionSkipped {
            reason: ExecutionSkippedReason::InsufficientFunds,
        }
    ));
}

#[test]
fn settled_fill_fans_proceeds_out_with_truncation() {
    let mut state = instantiate_contract();
    let destinations = vec![
        Destination {
            address: "a".to_string(),
            allocation: Decimal::percent(33),
            msg: None,
        },
        Destination {
            address: "b".to_string(),
            allocation: Decimal::percent(33),
            msg: None,
        },
        Destination {
            address: "c".to_string(),
            allocation: Decimal::percent(34),
            msg: None,
        },
    ];
    let bounty = setup_bounty(
        &mut state,
        Bounty {
            destinations,
            trigger: Some(TriggerConfiguration::Time {
                target_time: MOCK_TIME,
            }),
            ..default_bounty()
        },
    );

    execute_trigger_handler(&mut state, mock_block(), bounty.id, Decimal::one()).unwrap();
    let response = after_fin_swap(
        &mut state,
        mock_block(),
        SwapResult::Filled {
            sent: ONE,
            received: 10,
        },
    )
    .unwrap();

    let sends: Vec<&OutMsg> = response
        .messages
        .iter()
        .filter(|m| m.reply_on == ReplyOn::Always)
        .collect();

    assert_eq!(sends.len(), 3);
    assert_eq!(
        sends[0].body,
        OutMsgBody::BankSend {
            to_address: "a".to_string(),
            amount: Coin::new(3, DENOM_UUSK),
        }
    );
    assert_eq!(
        sends[1].body,
        OutMsgBody::BankSend {
            to_address: "b".to_string(),
            amount: Coin::new(3, DENOM_UUSK),
        }
    );
    assert_eq!(
        sends[2].body,
        OutMsgBody::BankSend {
            to_address: "c".to_string(),
            amount: Coin::new(3, DENOM_UUSK),
        }
    );
}

#[test]
fn depositing_into_an_empty_inactive_vault_reactivates_it_with_one_trigger() {
    let mut state = instantiate_contract();
    let bounty = setup_bounty(
        &mut state,
        Bounty {
            status: BountyStatus::Inactive,
            balance: Coin::new(0, DENOM_UKUJI),
            swap_amount: 1_000_000,
            trigger: None,
            ..default_bounty()
        },
    );

    deposit_handler(
        &mut state,
        mock_block(),
        &MessageInfo {
            sender: USER.to_string(),
            funds: vec![Coin::new(10_000_000, DENOM_UKUJI)],
        },
        bounty.owner.clone(),
        bounty.id,
    )
    .unwrap();

    let updated = get_bounty_handler(&state, bounty.id).unwrap().bounty;

    assert_eq!(updated.status, BountyStatus::Active);
    assert_eq!(updated.balance.amount, 10_000_000);
    assert!(matches!(
        updated.trigger,
        Some(TriggerConfiguration::Time { .. })
    ));
}

#[test]
fn executing_with_a_price_past_the_threshold_skips_and_reschedules() {
    let mut state = instantiate_contract();
    let bounty = setup_bounty(
        &mut state,
        Bounty {
            minimum_receive_amount: Some(ONE),
            trigger: Some(TriggerConfiguration::Time {
                target_time: MOCK_TIME,
            }),
            ..default_bounty()
        },
    );

    let two = Decimal::percent(200);
    let response = execute_trigger_handler(&mut state, mock_block(), bounty.id, two).unwrap();

    assert!(response.messages.is_empty());

    let updated = get_bounty_handler(&state, bounty.id).unwrap().bounty;
    assert_eq!(
        updated.trigger,
        Some(TriggerConfiguration::Time {
            target_time: MOCK_TIME + 86400,
        })
    );

    let events = get_events_by_resource_id_handler(&state, bounty.id, None, None, None)
        .unwrap()
        .events;
    assert!(matches!(
        events.last().unwrap().data,
        EventData::BountyExecutionSkipped {
            reason: ExecutionSkippedReason::PriceThresholdExceeded { .. },
        }
    ));
}

#[test]
fn executing_without_a_trigger_fails() {
    let mut state = instantiate_contract();
    let bounty = setup_bounty(
        &mut state,
        Bounty {
            trigger: None,
            ..default_bounty()
        },
    );

    let err = execute_trigger_handler(&mut state, mock_block(), bounty.id, Decimal::one())
        .unwrap_err();

    assert_eq!(err.message(), "Error: no trigger exists for bounty id 0");
}

#[test]
fn executing_a_cancelled_bounty_fails() {
    let mut state = instantiate_contract();
    let bounty = setup_bounty(
        &mut state,
        Bounty {
            status: BountyStatus::Cancelled,
            ..default_bounty()
        },
    );

    let err = execute_trigger_handler(&mut state, mock_block(), bounty.id, Decimal::one())
        .unwrap_err();

    assert_eq!(err.message(), "Error: bounty is already cancelled");
}

#[test]
fn a_standing_limit_order_is_not_executable_as_a_time_trigger() {
    let mut state = instantiate_contract();
    let bounty = setup_bounty(
        &mut state,
        Bounty {
            trigger: Some(TriggerConfiguration::Price {
                target_price: Decimal::percent(200),
                order_idx: 7,
            }),
            ..default_bounty()
        },
    );

    let err = execute_trigger_handler(&mut state, mock_block(), bounty.id, Decimal::one())
        .unwrap_err();

    assert_eq!(err.message(), "Error: trigger execution time has not yet elapsed");
}

#[test]
fn a_fill_escrows_the_configured_fraction_when_a_baseline_exists() {
    let mut state = instantiate_contract();
    let bounty = setup_bounty(
        &mut state,
        Bounty {
            escrow_level: Decimal::percent(5),
            performance_assessment_strategy: Some(
                PerformanceAssessmentStrategy::CompareToStandardDca {
                    swapped_amount: Coin::new(0, DENOM_UKUJI),
                    received_amount: Coin::new(0, DENOM_UUSK),
                },
            ),
            trigger: Some(TriggerConfiguration::Time {
                target_time: MOCK_TIME,
            }),
            ..default_bounty()
        },
    );

    execute_trigger_handler(&mut state, mock_block(), bounty.id, Decimal::one()).unwrap();
    after_fin_swap(
        &mut state,
        mock_block(),
        SwapResult::Filled {
            sent: ONE,
            received: 2 * ONE,
        },
    )
    .unwrap();

    let updated = get_bounty_handler(&state, bounty.id).unwrap().bounty;

    assert_eq!(updated.escrowed_amount.amount, 2 * ONE * 5 / 100);
}

#[test]
fn a_fill_escrows_nothing_without_a_baseline() {
    let mut state = instantiate_contract();
    let bounty = setup_bounty(
        &mut state,
        Bounty {
            escrow_level: Decimal::percent(5),
            performance_assessment_strategy: None,
            trigger: Some(TriggerConfiguration::Time {
                target_time: MOCK_TIME,
            }),
            ..default_bounty()
        },
    );

    execute_trigger_handler(&mut state, mock_block(), bounty.id, Decimal::one()).unwrap();
    after_fin_swap(
        &mut state,
        mock_block(),
        SwapResult::Filled {
            sent: ONE,
            received: 2 * ONE,
        },
    )
    .unwrap();

    let updated = get_bounty_handler(&state, bounty.id).unwrap().bounty;

    assert_eq!(updated.escrowed_amount.amount, 0);
}

#[test]
fn performance_query_succeeds_exactly_when_its_arithmetic_fits() {
    let mut state = instantiate_contract();
    let bounty = setup_bounty(
        &mut state,
        Bounty {
            swapped_amount: Coin::new(TEN, DENOM_UKUJI),
            received_amount: Coin::new(TEN, DENOM_UUSK),
            deposited_amount: Coin::new(TEN, DENOM_UKUJI),
            escrowed_amount: Coin::new(TEN, DENOM_UUSK),
            performance_assessment_strategy: Some(
                PerformanceAssessmentStrategy::CompareToStandardDca {
                    swapped_amount: Coin::new(TEN, DENOM_UKUJI),
                    received_amount: Coin::new(TEN - ONE, DENOM_UUSK),
                },
            ),
            ..default_bounty()
        },
    );

    let response = dca::handlers::get_bounty::get_bounty_performance_handler(
        &state,
        bounty.id,
        Decimal::one(),
    )
    .unwrap();

    assert_eq!(response.fee.amount, 200_000);
    assert_eq!(response.factor.atomics, 1_111_111_111_111_111_111);
}
