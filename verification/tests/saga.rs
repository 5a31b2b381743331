use trading_executor::errors::TradingExecutorError;
use trading_executor::flows::open_position_flow::{
    run_open_position, open_position, OpenAction, OpenProgress, OpenSagaScript,
};
use trading_executor::ledger::InMemoryAccountLedger;
use trading_executor::models::{Account, ActivePosition, OpenPositionRequest, PositionSide};
use trading_executor::reference_data::{
    BidAskSnapshot, DayOffWindow, ReferenceSnapshot, TradingGroup, TradingInstrument,
    TradingProfile, TradingProfileInstrument,
};

fn instrument(id: &str, base: &str, quote: &str) -> TradingInstrument {
    TradingInstrument {
        id: id.to_string(),
        base: base.to_string(),
        quote: quote.to_string(),
        days_off: vec![],
        day_timeout: None,
        night_timeout: None,
    }
}

fn snapshot(is_a_book: bool) -> ReferenceSnapshot {
    ReferenceSnapshot {
        instruments: vec![instrument("EURUSD", "EUR", "USD")],
        groups: vec![TradingGroup {
            id: "G1".to_string(),
            trading_profile_id: "P1".to_string(),
        }],
        profiles: vec![TradingProfile {
            id: "P1".to_string(),
            is_a_book,
            stop_out_percent: 30,
            instruments: vec![TradingProfileInstrument {
                id: "EURUSD".to_string(),
                leverages: vec![10, 20, 50],
                open_position_min_delay_ms: 1,
                open_position_max_delay_ms: 3,
            }],
        }],
        bid_asks: vec![BidAskSnapshot {
            id: "EURUSD".to_string(),
            base: "EUR".to_string(),
            quote: "USD".to_string(),
            unix_timestamp_with_millis: 1_700_000_000_000,
        }],
    }
}

fn account() -> Account {
    Account {
        trader_id: "T1".to_string(),
        account_id: "A1".to_string(),
        balance: 1000,
        currency: "USD".to_string(),
        trading_group: "G1".to_string(),
    }
}

fn request(invest_amount: i64, leverage: i32) -> OpenPositionRequest {
    OpenPositionRequest {
        trader_id: "T1".to_string(),
        account_id: "A1".to_string(),
        process_id: "proc-1".to_string(),
        asset_pair: "EURUSD".to_string(),
        side: PositionSide::Buy,
        invest_amount,
        leverage,
        tp_in_profit: None,
        sl_in_profit: None,
        tp_in_asset_price: None,
        sl_in_asset_price: None,
    }
}

fn created(invest_amount: i64, leverage: i32) -> ActivePosition {
    ActivePosition {
        id: "pos-1".to_string(),
        trader_id: "T1".to_string(),
        account_id: "A1".to_string(),
        asset_pair: "EURUSD".to_string(),
        side: PositionSide::Buy,
        invest_amount,
        leverage,
        stop_out_percent: 30,
        create_process_id: "proc-1".to_string(),
        tp_in_profit: None,
        sl_in_profit: None,
        tp_in_asset_price: None,
        sl_in_asset_price: None,
        open_price: 108_550,
        base: "EUR".to_string(),
        quote: "USD".to_string(),
        collateral: "USD".to_string(),
    }
}

fn script(created_position: Option<ActivePosition>) -> OpenSagaScript {
    OpenSagaScript { bridge_available: true, bridge_status_code: 0, created_position }
}

#[test]
fn successful_open_debits_exactly_the_invested_amount() {
    let snap = snapshot(false);
    let mut ledger = InMemoryAccountLedger::new(account());

    let r = run_open_position(&snap, request(250, 10), &mut ledger, script(Some(created(250, 10))));

    let position = r.expect("the open saga should succeed");
    assert_eq!(position.invest_amount, 250);
    assert_eq!(position.leverage, 10);
    assert_eq!(position.asset_pair, "EURUSD");
    assert_eq!(ledger.account.balance, 750);
    assert_eq!(ledger.applied_deltas, vec![-250]);
}

#[test]
fn failed_create_is_compensated_and_net_balance_is_unchanged() {
    let snap = snapshot(false);
    let mut ledger = InMemoryAccountLedger::new(account());

    let r = run_open_position(&snap, request(250, 10), &mut ledger, script(None));

    assert_eq!(r, Err(TradingExecutorError::TechError));
    // The debit and its reversing credit were both recorded, and the net
    // balance equals the balance before the saga.
    assert_eq!(ledger.applied_deltas, vec![-250, 250]);
    assert_eq!(ledger.account.balance, 1000);
}

#[test]
fn leverage_outside_the_allowed_set_is_rejected() {
    let snap = snapshot(false);
    let mut ledger = InMemoryAccountLedger::new(account());

    let r = run_open_position(&snap, request(250, 33), &mut ledger, script(Some(created(250, 33))));

    assert_eq!(r, Err(TradingExecutorError::MultiplierIsNotFound));
    assert_eq!(ledger.account.balance, 1000);
    assert!(ledger.applied_deltas.is_empty());
}

#[test]
fn leverage_rejection_ignores_other_request_fields() {
    let snap = snapshot(false);
    let mut ledger = InMemoryAccountLedger::new(account());
    let mut req = request(999, 33);
    req.side = PositionSide::Sell;
    req.tp_in_profit = Some(7);
    req.process_id = "another-process".to_string();

    let r = run_open_position(&snap, req, &mut ledger, script(None));

    assert_eq!(r, Err(TradingExecutorError::MultiplierIsNotFound));
}

#[test]
fn insufficient_balance_fails_without_any_mutation() {
    let snap = snapshot(false);
    let mut ledger = InMemoryAccountLedger::new(account());

    let r = run_open_position(&snap, request(2000, 10), &mut ledger, script(Some(created(2000, 10))));

    assert_eq!(r, Err(TradingExecutorError::NotEnoughBalance));
    assert_eq!(ledger.account.balance, 1000);
    assert!(ledger.applied_deltas.is_empty());
}

#[test]
fn unknown_account_is_account_not_found() {
    let snap = snapshot(false);
    let mut ledger = InMemoryAccountLedger::new(account());
    let mut req = request(250, 10);
    req.trader_id = "T2".to_string();

    let r = run_open_position(&snap, req, &mut ledger, script(None));

    assert_eq!(r, Err(TradingExecutorError::AccountNotFound));
    assert_eq!(ledger.account.balance, 1000);
}

#[test]
fn unknown_instrument_is_instrument_not_found() {
    let snap = snapshot(false);
    let mut ledger = InMemoryAccountLedger::new(account());
    let mut req = request(250, 10);
    req.asset_pair = "XXXYYY".to_string();

    let r = run_open_position(&snap, req, &mut ledger, script(None));

    assert_eq!(r, Err(TradingExecutorError::InstrumentNotFound));
}

#[test]
fn unknown_trading_group_is_trading_group_not_found() {
    let snap = snapshot(false);
    let mut acc = account();
    acc.trading_group = "NOPE".to_string();
    let mut ledger = InMemoryAccountLedger::new(acc);

    let r = run_open_position(&snap, request(250, 10), &mut ledger, script(None));

    assert_eq!(r, Err(TradingExecutorError::TradingGroupNotFound));
}

#[test]
fn unknown_trading_profile_is_trading_profile_not_found() {
    let mut snap = snapshot(false);
    snap.groups[0].trading_profile_id = "P9".to_string();
    let mut ledger = InMemoryAccountLedger::new(account());

    let r = run_open_position(&snap, request(250, 10), &mut ledger, script(None));

    assert_eq!(r, Err(TradingExecutorError::TradingProfileNotFound));
}

#[test]
fn missing_instrument_policy_is_trading_profile_instrument_not_found() {
    let mut snap = snapshot(false);
    snap.profiles[0].instruments[0].id = "GBPUSD".to_string();
    let mut ledger = InMemoryAccountLedger::new(account());

    let r = run_open_position(&snap, request(250, 10), &mut ledger, script(None));

    assert_eq!(r, Err(TradingExecutorError::TradingProfileInstrumentNotFound));
}

#[test]
fn a_book_profile_without_bridge_is_rejected() {
    let snap = snapshot(true);
    let mut ledger = InMemoryAccountLedger::new(account());
    let script = OpenSagaScript {
        bridge_available: false,
        bridge_status_code: 0,
        created_position: Some(created(250, 10)),
    };

    let r = run_open_position(&snap, request(250, 10), &mut ledger, script);

    assert_eq!(r, Err(TradingExecutorError::ABookReject));
    assert_eq!(ledger.account.balance, 1000);
    assert!(ledger.applied_deltas.is_empty());
}

#[test]
fn a_book_bridge_rejection_fails_before_any_debit() {
    let snap = snapshot(true);
    let mut ledger = InMemoryAccountLedger::new(account());
    let script = OpenSagaScript {
        bridge_available: true,
        bridge_status_code: 7,
        created_position: Some(created(250, 10)),
    };

    let r = run_open_position(&snap, request(250, 10), &mut ledger, script);

    assert_eq!(r, Err(TradingExecutorError::ABookReject));
    assert_eq!(ledger.account.balance, 1000);
    assert!(ledger.applied_deltas.is_empty());
}

#[test]
fn a_book_bridge_acceptance_proceeds_to_the_debit() {
    let snap = snapshot(true);
    let mut ledger = InMemoryAccountLedger::new(account());

    let r = run_open_position(&snap, request(250, 10), &mut ledger, script(Some(created(250, 10))));

    assert!(r.is_ok());
    assert_eq!(ledger.account.balance, 750);
}

#[test]
fn day_off_instrument_rejects_the_open() {
    let mut snap = snapshot(false);
    // One window covering the whole week: Monday 00:00:00 through the
    // venue's Sunday code at 23:59:59.
    snap.instruments[0].days_off = vec![DayOffWindow {
        dow_from: 1,
        time_from: "00:00:00".to_string(),
        dow_to: 0,
        time_to: "23:59:59".to_string(),
    }];
    let mut ledger = InMemoryAccountLedger::new(account());

    let r = run_open_position(&snap, request(250, 10), &mut ledger, script(None));

    assert_eq!(r, Err(TradingExecutorError::DayOff));
    assert_eq!(ledger.account.balance, 1000);
}

#[test]
fn stale_asset_quote_rejects_the_open() {
    let mut snap = snapshot(false);
    snap.instruments[0].day_timeout = Some(1);
    snap.bid_asks[0].unix_timestamp_with_millis = 0;
    let mut ledger = InMemoryAccountLedger::new(account());

    let r = run_open_position(&snap, request(250, 10), &mut ledger, script(None));

    assert_eq!(r, Err(TradingExecutorError::NoLiquidity));
    assert_eq!(ledger.account.balance, 1000);
}

#[test]
fn saga_steps_carry_the_request_into_every_collaborator_call() {
    let snap = snapshot(false);
    let mut flow = open_position(&snap, request(250, 10)).expect("validation should pass");

    let progress = flow.account_fetched_at(Some(account()), &snap, 1_700_000_000_100);
    let delay_ms = match progress {
        OpenProgress::Next(OpenAction::Sleep { delay_ms }) => delay_ms,
        _ => panic!("expected the execution delay next"),
    };
    assert!((1..3).contains(&delay_ms));

    let progress = flow.delay_elapsed(true);
    let debit = match progress {
        OpenProgress::Next(OpenAction::DebitAccount { request }) => request,
        _ => panic!("expected the debit next"),
    };
    assert_eq!(debit.trader_id, "T1");
    assert_eq!(debit.account_id, "A1");
    assert_eq!(debit.delta, -250);
    assert_eq!(debit.comment, "Open position balance charge");
    assert_eq!(debit.process_id, "proc-1");
    assert!(!debit.allow_negative_balance);

    let progress = flow.debit_result(true, &snap);
    let create = match progress {
        OpenProgress::Next(OpenAction::CreatePosition { request }) => request,
        _ => panic!("expected the create call next"),
    };
    assert_eq!(create.asset_pair, "EURUSD");
    assert_eq!(create.invest_amount, 250);
    assert_eq!(create.leverage, 10);
    assert_eq!(create.stop_out_percent, 30);
    assert_eq!(create.base, "EUR");
    assert_eq!(create.quote, "USD");
    assert_eq!(create.collateral_currency, "USD");
    assert_eq!(create.id.len(), 36);

    let progress = flow.create_result(None);
    let credit = match progress {
        OpenProgress::Next(OpenAction::CreditAccount { request }) => request,
        _ => panic!("expected the compensating credit next"),
    };
    assert_eq!(credit.delta, 250);
    assert_eq!(credit.comment, "Cancel open position balance charge");

    // A failed compensation must surface as an escalation, never silently.
    let progress = flow.compensation_result(false);
    assert!(matches!(progress, OpenProgress::Escalate));
}

#[test]
fn a_book_saga_submits_the_bridge_request_before_the_debit() {
    let snap = snapshot(true);
    let mut flow = open_position(&snap, request(250, 10)).expect("validation should pass");

    let _ = flow.account_fetched_at(Some(account()), &snap, 1_700_000_000_100);
    let progress = flow.delay_elapsed(true);
    let bridge = match progress {
        OpenProgress::Next(OpenAction::CallBridge { request }) => request,
        _ => panic!("expected the bridge call next"),
    };
    assert_eq!(bridge.instrument_id, "EURUSD");
    assert_eq!(bridge.account_id, "A1");
    assert_eq!(bridge.invest_amount, 250);
    assert_eq!(bridge.leverage, 10);
    assert_eq!(bridge.position_id.len(), 36);

    let progress = flow.bridge_result(3);
    match progress {
        OpenProgress::Done(res) => assert_eq!(res, Err(TradingExecutorError::ABookReject)),
        _ => panic!("a rejecting bridge must end the saga"),
    }
}
