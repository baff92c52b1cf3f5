//! Depositing funds: balance growth, reactivation, and rejections.

use dca::bounty::{Bounty, BountyStatus};
use dca::coin::Coin;
use dca::config::FeeCollector;
use dca::destination::Destination;
use dca::event::{BlockInfo, EventBuilder, EventData};
use dca::handlers::deposit::deposit_handler;
use dca::handlers::get_bounty::{get_bounty_handler, get_events_by_resource_id_handler};
use dca::handlers::instantiate::instantiate_handler;
use dca::math::Decimal;
use dca::msg::{InstantiateMsg, MessageInfo};
use dca::state::{migrate_bounty, State};
use dca::time::TimeInterval;
use dca::trigger::TriggerConfiguration;

const ADMIN: &str = "admin";
const USER: &str = "user";
const DENOM_UKUJI: &str = "ukuji";
const DENOM_UUSK: &str = "uusk";
const ONE: u128 = 1_000_000;
const TEN: u128 = 10_000_000;
const MOCK_TIME: u64 = 1_571_797_419;

fn mock_block() -> BlockInfo {
    BlockInfo {
        height: 12345,
        time: MOCK_TIME,
    }
}

fn instantiate_contract() -> State {
    instantiate_handler(InstantiateMsg {
        admin: ADMIN.to_string(),
        executors: vec![ADMIN.to_string()],
        fee_collectors: vec![FeeCollector {
            address: "fee_collector".to_string(),
            allocation: Decimal::percent(100),
        }],
        automation_fee_percent: Decimal::percent(0),
        paused: false,
        exchange_contract_address: "swap-contract".to_string(),
    })
    .unwrap()
}

fn default_bounty() -> Bounty {
    Bounty {
        id: 0,
        created_at: MOCK_TIME,
        started_at: None,
        owner: USER.to_string(),
        label: Some("bounty".to_string()),
        destinations: vec![Destination {
            address: USER.to_string(),
            allocation: Decimal::percent(100),
            msg: None,
        }],
        status: BountyStatus::Active,
        balance: Coin::new(TEN, DENOM_UKUJI),
        target_denom: DENOM_UUSK.to_string(),
        route: None,
        swap_amount: ONE,
        slippage_tolerance: Decimal::percent(10),
        minimum_receive_amount: None,
        time_interval: TimeInterval::Daily,
        escrow_level: Decimal::zero(),
        deposited_amount: Coin::new(TEN, DENOM_UKUJI),
        swapped_amount: Coin::new(0, DENOM_UKUJI),
        received_amount: Coin::new(0, DENOM_UUSK),
        escrowed_amount: Coin::new(0, DENOM_UUSK),
        performance_assessment_strategy: None,
        swap_adjustment_strategy: None,
        trigger: Some(TriggerConfiguration::Time {
            target_time: MOCK_TIME + 86400,
        }),
    }
}

fn setup_bounty(state: &mut State, bounty: Bounty) -> Bounty {
    let copy = bounty.clone();
    migrate_bounty(state, bounty).unwrap();
    copy
}

fn info_with(sender: &str, funds: Vec<Coin>) -> MessageInfo {
    MessageInfo {
        sender: sender.to_string(),
        funds,
    }
}

#[test]
fn updates_the_bounty_balance() {
    let mut state = instantiate_contract();
    let deposit_amount = Coin::new(TEN, DENOM_UKUJI);
    let info = info_with(ADMIN, vec![deposit_amount.clone()]);

    let bounty = setup_bounty(
        &mut state,
        Bounty {
            balance: Coin::new(0, DENOM_UKUJI),
            ..default_bounty()
        },
    );

    deposit_handler(&mut state, mock_block(), &info, bounty.owner.clone(), bounty.id).unwrap();

    let updated_bounty = get_bounty_handler(&state, bounty.id).unwrap().bounty;

    assert_eq!(bounty.balance.amount, 0);
    assert_eq!(updated_bounty.balance, deposit_amount);
}

#[test]
fn publishes_deposit_event() {
    let mut state = instantiate_contract();
    let deposit_amount = Coin::new(TEN, DENOM_UKUJI);
    let info = info_with(ADMIN, vec![deposit_amount.clone()]);

    let bounty = setup_bounty(&mut state, default_bounty());

    deposit_handler(&mut state, mock_block(), &info, bounty.owner.clone(), bounty.id).unwrap();

    let events = get_events_by_resource_id_handler(&state, bounty.id, None, None, None)
        .unwrap()
        .events;

    assert!(events.contains(
        &EventBuilder::new(
            bounty.id,
            mock_block(),
            EventData::BountyFundsDeposited {
                amount: deposit_amount,
            },
        )
        .build(1)
    ));
}

#[test]
fn updates_inactive_bounty_to_active() {
    let mut state = instantiate_contract();
    let deposit_amount = Coin::new(TEN, DENOM_UKUJI);
    let info = info_with(ADMIN, vec![deposit_amount]);

    let bounty = setup_bounty(
        &mut state,
        Bounty {
            status: BountyStatus::Inactive,
            ..default_bounty()
        },
    );

    deposit_handler(&mut state, mock_block(), &info, bounty.owner.clone(), bounty.id).unwrap();

    let updated_bounty = get_bounty_handler(&state, bounty.id).unwrap().bounty;

    assert_eq!(bounty.status, BountyStatus::Inactive);
    assert_eq!(updated_bounty.status, BountyStatus::Active);
}

#[test]
fn leaves_scheduled_bounty_scheduled() {
    let mut state = instantiate_contract();
    let deposit_amount = Coin::new(TEN, DENOM_UKUJI);
    let info = info_with(ADMIN, vec![deposit_amount]);

    let bounty = setup_bounty(
        &mut state,
        Bounty {
            status: BountyStatus::Scheduled,
            ..default_bounty()
        },
    );

    deposit_handler(&mut state, mock_block(), &info, bounty.owner.clone(), bounty.id).unwrap();

    let updated_bounty = get_bounty_handler(&state, bounty.id).unwrap().bounty;

    assert_eq!(bounty.status, BountyStatus::Scheduled);
    assert_eq!(updated_bounty.status, BountyStatus::Scheduled);
}

#[test]
fn leaves_active_bounty_active() {
    let mut state = instantiate_contract();
    let deposit_amount = Coin::new(TEN, DENOM_UKUJI);
    let info = info_with(ADMIN, vec![deposit_amount]);

    let bounty = setup_bounty(&mut state, default_bounty());

    deposit_handler(&mut state, mock_block(), &info, bounty.owner.clone(), bounty.id).unwrap();

    let updated_bounty = get_bounty_handler(&state, bounty.id).unwrap().bounty;

    assert_eq!(bounty.status, BountyStatus::Active);
    assert_eq!(updated_bounty.status, BountyStatus::Active);
}

#[test]
fn does_not_execute_trigger_for_active_bounty() {
    let mut state = instantiate_contract();
    let deposit_amount = Coin::new(TEN, DENOM_UKUJI);
    let info = info_with(ADMIN, vec![deposit_amount]);

    let bounty = setup_bounty(&mut state, default_bounty());

    let response =
        deposit_handler(&mut state, mock_block(), &info, USER.to_string(), bounty.id).unwrap();

    assert!(response.messages.is_empty())
}

#[test]
fn does_not_execute_trigger_for_scheduled_bounty() {
    let mut state = instantiate_contract();
    let deposit_amount = Coin::new(TEN, DENOM_UKUJI);
    let info = info_with(ADMIN, vec![deposit_amount]);

    let bounty = setup_bounty(
        &mut state,
        Bounty {
            status: BountyStatus::Scheduled,
            ..default_bounty()
        },
    );

    let response =
        deposit_handler(&mut state, mock_block(), &info, USER.to_string(), bounty.id).unwrap();

    assert!(response.messages.is_empty())
}

#[test]
fn for_cancelled_bounty_should_fail() {
    let mut state = instantiate_contract();
    let deposit_amount = Coin::new(TEN, DENOM_UKUJI);
    let info = info_with(ADMIN, vec![deposit_amount]);

    let bounty = setup_bounty(
        &mut state,
        Bounty {
            status: BountyStatus::Cancelled,
            ..default_bounty()
        },
    );

    let err =
        deposit_handler(&mut state, mock_block(), &info, bounty.owner.clone(), bounty.id)
            .unwrap_err();

    assert_eq!(err.message(), "Error: bounty is already cancelled");
}

#[test]
fn with_incorrect_owner_address_should_fail() {
    let mut state = instantiate_contract();
    let deposit_amount = Coin::new(TEN, DENOM_UKUJI);
    let info = info_with(ADMIN, vec![deposit_amount]);

    let bounty = setup_bounty(
        &mut state,
        Bounty {
            status: BountyStatus::Cancelled,
            ..default_bounty()
        },
    );

    let err = deposit_handler(
        &mut state,
        mock_block(),
        &info,
        "not-the-owner".to_string(),
        bounty.id,
    )
    .unwrap_err();

    assert_eq!(
        err.message(),
        "Error: provided an incorrect owner address for bounty id 0"
    );
}

#[test]
fn with_incorrect_denom_should_fail() {
    let mut state = instantiate_contract();

    let bounty = setup_bounty(&mut state, default_bounty());

    let err = deposit_handler(
        &mut state,
        mock_block(),
        &info_with(USER, vec![Coin::new(ONE, &bounty.received_amount.denom)]),
        bounty.owner.clone(),
        bounty.id,
    )
    .unwrap_err();

    assert_eq!(
        err.message(),
        format!(
            "Error: received asset with denom {}, but needed {}",
            bounty.target_denom,
            bounty.get_swap_denom()
        )
    );
}

#[test]
fn with_multiple_assets_should_fail() {
    let mut state = instantiate_contract();
    let info = info_with(
        ADMIN,
        vec![Coin::new(TEN, DENOM_UUSK), Coin::new(TEN, DENOM_UKUJI)],
    );

    let bounty = setup_bounty(&mut state, default_bounty());

    let err =
        deposit_handler(&mut state, mock_block(), &info, bounty.owner.clone(), bounty.id)
            .unwrap_err();

    assert_eq!(err.message(), "Error: received 2 denoms but required exactly 1");
}

#[test]
fn when_contract_is_paused_should_fail() {
    let mut state = instantiate_contract();
    let info = info_with(
        ADMIN,
        vec![Coin::new(TEN, DENOM_UUSK), Coin::new(TEN, DENOM_UKUJI)],
    );

    state.config.paused = true;

    let bounty = setup_bounty(&mut state, default_bounty());

    let err =
        deposit_handler(&mut state, mock_block(), &info, bounty.owner.clone(), bounty.id)
            .unwrap_err();

    assert_eq!(err.message(), "Error: contract is paused");
}

#[test]
fn should_update_total_deposit() {
    let mut state = instantiate_contract();
    let deposit_amount = Coin::new(100_000_000, DENOM_UKUJI);
    let info = info_with(ADMIN, vec![deposit_amount.clone()]);

    let bounty = setup_bounty(&mut state, default_bounty());

    deposit_handler(&mut state, mock_block(), &info, bounty.owner.clone(), bounty.id).unwrap();

    let updated_bounty = get_bounty_handler(&state, bounty.id).unwrap().bounty;

    assert_eq!(bounty.deposited_amount, bounty.balance);
    assert_eq!(
        updated_bounty.deposited_amount.amount,
        bounty.balance.amount + deposit_amount.amount
    );
}

#[test]
fn deposit_below_one_swap_amount_leaves_the_vault_inactive() {
    let mut state = instantiate_contract();
    let info = info_with(ADMIN, vec![Coin::new(ONE / 2, DENOM_UKUJI)]);

    let bounty = setup_bounty(
        &mut state,
        Bounty {
            status: BountyStatus::Inactive,
            balance: Coin::new(0, DENOM_UKUJI),
            trigger: None,
            ..default_bounty()
        },
    );

    deposit_handler(&mut state, mock_block(), &info, bounty.owner.clone(), bounty.id).unwrap();

    let updated_bounty = get_bounty_handler(&state, bounty.id).unwrap().bounty;

    assert_eq!(updated_bounty.balance.amount, ONE / 2);
    assert_eq!(updated_bounty.status, BountyStatus::Inactive);
    assert_eq!(updated_bounty.trigger, None);
}
