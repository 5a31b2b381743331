use vstd::prelude::*;

use crate::clock::{current_unix_millis, current_week_time, WeekTime};
use crate::errors::TradingExecutorError;
use crate::models::{
    ABookBridgeOpenPositionRequest, ABookBridgePositionSide, Account, ActivePosition,
    BalanceUpdateRequest, OpenPositionRequest, PositionLedgerOpenRequest, PositionSide,
    UpdateBalanceReason,
};
use crate::reference_data::{
    group_index, instrument_index, leverage_allowed, profile_index, profile_instrument_index,
    ReferenceSnapshot, TradingInstrument,
};
use crate::flows::validate_day_off::{
    instrument_day_off, instrument_windows_wf, validate_instrument_day_off_at,
};
use crate::flows::validate_prices_timeout::{validate_timeout_at, validate_timeout_spec};
use crate::ledger::InMemoryAccountLedger;

verus! {

/// Relies on uuid: `Uuid::new_v4` and its `Display` impl, which renders the
/// hyphenated lowercase form of 36 characters. Each call draws a fresh random
/// id, so nothing more is assumed of the value.
#[verifier::external_body]
pub(crate) fn new_position_id() -> (r: String)
    ensures
        r@.len() == 36,
{
    uuid::Uuid::new_v4().to_string()
}

/// Relies on rand: `Rng::gen_range` over `from..to` returns a uniformly
/// random value in `[from, to)` and panics only on an empty range, which the
/// precondition rules out.
#[verifier::external_body]
fn delay_open(from: i32, to: i32) -> (r: i32)
    requires
        from < to,
    ensures
        from <= r < to,
{
    rand::Rng::gen_range(&mut rand::thread_rng(), from..to)
}

/// Every instrument of the snapshot carries only well-formed blackout
/// windows.
pub open spec fn snapshot_windows_wf(snapshot: ReferenceSnapshot) -> bool {
    forall|i: int|
        0 <= i < snapshot.instruments@.len() ==> instrument_windows_wf(
            #[trigger] snapshot.instruments@[i],
        )
}

/// What the open and open-limit flows read of the trading profile once the
/// account's route has been resolved.
#[derive(Clone, Copy, Debug, PartialEq, Eq, Structural)]
pub struct OpenPlan {
    pub profile_index: usize,
    pub policy_index: usize,
    pub is_a_book: bool,
    pub stop_out_percent: u32,
    pub min_delay_ms: i32,
    pub max_delay_ms: i32,
}

/// Resolve the account's trading group, the group's profile, the profile's
/// policy for the asset pair, and check the requested leverage against the
/// policy's allowed set. The result is the profile and policy index, or the
/// first error of that chain.
pub open spec fn profile_route(
    snapshot: ReferenceSnapshot,
    trading_group: Seq<char>,
    asset_pair: Seq<char>,
    leverage: i32,
) -> Result<(int, int), TradingExecutorError> {
    match group_index(snapshot.groups@, trading_group) {
        None => Err(TradingExecutorError::TradingGroupNotFound),
        Some(gi) => match profile_index(
            snapshot.profiles@,
            snapshot.groups@[gi].trading_profile_id@,
        ) {
            None => Err(TradingExecutorError::TradingProfileNotFound),
            Some(pi) => match profile_instrument_index(
                snapshot.profiles@[pi].instruments@,
                asset_pair,
            ) {
                None => Err(TradingExecutorError::TradingProfileInstrumentNotFound),
                Some(ti) => if !leverage_allowed(
                    snapshot.profiles@[pi].instruments@[ti].leverages@,
                    leverage,
                ) {
                    Err(TradingExecutorError::MultiplierIsNotFound)
                } else {
                    Ok((pi, ti))
                },
            },
        },
    }
}

/// The plan read off the snapshot at profile index `pi` and policy index `ti`.
pub open spec fn plan_of(snapshot: ReferenceSnapshot, pi: int, ti: int) -> OpenPlan {
    OpenPlan {
        profile_index: pi as usize,
        policy_index: ti as usize,
        is_a_book: snapshot.profiles@[pi].is_a_book,
        stop_out_percent: snapshot.profiles@[pi].stop_out_percent,
        min_delay_ms: snapshot.profiles@[pi].instruments@[ti].open_position_min_delay_ms,
        max_delay_ms: snapshot.profiles@[pi].instruments@[ti].open_position_max_delay_ms,
    }
}

/// Resolve the profile route of `trading_group` for `asset_pair` at
/// `leverage` against the snapshot.
pub fn resolve_profile_route(
    snapshot: &ReferenceSnapshot,
    trading_group: &String,
    asset_pair: &String,
    leverage: i32,
) -> (r: Result<(usize, usize), TradingExecutorError>)
    ensures
        match r {
            Ok(route) => {
                &&& route.0 < snapshot.profiles@.len()
                &&& route.1 < snapshot.profiles@[route.0 as int].instruments@.len()
                &&& profile_route(*snapshot, trading_group@, asset_pair@, leverage) == Ok::<
                    (int, int),
                    TradingExecutorError,
                >((route.0 as int, route.1 as int))
            },
            Err(e) => profile_route(*snapshot, trading_group@, asset_pair@, leverage) == Err::<
                (int, int),
                TradingExecutorError,
            >(e),
        },
{
    match snapshot.find_group(trading_group) {
        None => Err(TradingExecutorError::TradingGroupNotFound),
        Some(gi) => {
            match snapshot.find_profile(&snapshot.groups[gi].trading_profile_id) {
                None => Err(TradingExecutorError::TradingProfileNotFound),
                Some(pi) => {
                    match snapshot.profiles[pi].find_instrument_policy(asset_pair) {
                        None => Err(TradingExecutorError::TradingProfileInstrumentNotFound),
                        Some(ti) => {
                            if !snapshot.profiles[pi].instruments[ti].allows_leverage(leverage) {
                                Err(TradingExecutorError::MultiplierIsNotFound)
                            } else {
                                Ok((pi, ti))
                            }
                        },
                    }
                },
            }
        },
    }
}

/// Where the open-position saga stands between two collaborator calls.
#[derive(Clone, Copy, Debug, PartialEq, Eq, Structural)]
pub enum OpenPositionStep {
    AwaitingAccount,
    AwaitingDelay(OpenPlan),
    AwaitingBridge(OpenPlan),
    AwaitingDebit(OpenPlan),
    AwaitingCreate(OpenPlan),
    AwaitingCompensation,
    Finished,
}

/// The outside work the saga asks its caller to perform next.
pub enum OpenAction {
    Sleep { delay_ms: i32 },
    CallBridge { request: ABookBridgeOpenPositionRequest },
    DebitAccount { request: BalanceUpdateRequest },
    CreatePosition { request: PositionLedgerOpenRequest },
    CreditAccount { request: BalanceUpdateRequest },
}

/// What a saga step hands back: the next action, a terminal outcome, or the
/// unrecoverable escalation after a failed compensation.
pub enum OpenProgress {
    Next(OpenAction),
    Done(Result<ActivePosition, TradingExecutorError>),
    Escalate,
}

/// The open-position saga: the ordered validations, the single debit, the
/// position-create call, and the compensating credit on its failure.
pub struct OpenPositionFlow {
    pub request: OpenPositionRequest,
    pub position_id: String,
    pub instrument_index: usize,
    pub step: OpenPositionStep,
}

/// The balance mutation that debits the invested amount before the position
/// is created.
pub open spec fn debit_request_matches(req: BalanceUpdateRequest, r: OpenPositionRequest) -> bool {
    &&& req.trader_id@ == r.trader_id@
    &&& req.account_id@ == r.account_id@
    &&& req.delta == -r.invest_amount
    &&& req.comment@ == "Open position balance charge"@
    &&& req.process_id@ == r.process_id@
    &&& req.allow_negative_balance == false
    &&& req.reason == UpdateBalanceReason::TradingResult
}

/// The balance mutation that reverses the debit after a failed create call.
pub open spec fn credit_request_matches(req: BalanceUpdateRequest, r: OpenPositionRequest) -> bool {
    &&& req.trader_id@ == r.trader_id@
    &&& req.account_id@ == r.account_id@
    &&& req.delta == r.invest_amount
    &&& req.comment@ == "Cancel open position balance charge"@
    &&& req.process_id@ == r.process_id@
    &&& req.allow_negative_balance == false
    &&& req.reason == UpdateBalanceReason::TradingResult
}

/// The submission sent to the external liquidity bridge.
pub open spec fn bridge_request_matches(
    req: ABookBridgeOpenPositionRequest,
    r: OpenPositionRequest,
    position_id: Seq<char>,
) -> bool {
    &&& req.instrument_id@ == r.asset_pair@
    &&& req.position_id@ == position_id
    &&& req.account_id@ == r.account_id@
    &&& req.leverage == r.leverage
    &&& req.invest_amount == r.invest_amount
    &&& (r.side == PositionSide::Buy <==> req.side == ABookBridgePositionSide::Buy)
}

/// The open request sent to the position ledger: the validated request
/// fields, the pre-generated position id, the profile's stop-out level, the
/// instrument's legs, and the fixed collateral currency.
pub open spec fn ledger_open_request_matches(
    req: PositionLedgerOpenRequest,
    r: OpenPositionRequest,
    position_id: Seq<char>,
    stop_out_percent: u32,
    instrument: TradingInstrument,
) -> bool {
    &&& req.id@ == position_id
    &&& req.trader_id@ == r.trader_id@
    &&& req.account_id@ == r.account_id@
    &&& req.asset_pair@ == r.asset_pair@
    &&& req.side == r.side
    &&& req.invest_amount == r.invest_amount
    &&& req.leverage == r.leverage
    &&& req.stop_out_percent == stop_out_percent
    &&& req.process_id@ == r.process_id@
    &&& req.tp_in_profit == r.tp_in_profit
    &&& req.sl_in_profit == r.sl_in_profit
    &&& req.tp_in_asset_price == r.tp_in_asset_price
    &&& req.sl_in_asset_price == r.sl_in_asset_price
    &&& req.base@ == instrument.base@
    &&& req.quote@ == instrument.quote@
    &&& req.collateral_currency@ == "USD"@
}

impl OpenPositionFlow {
    /// The flow is tied to the snapshot it was validated against.
    pub open spec fn wf(self, snapshot: ReferenceSnapshot) -> bool {
        &&& self.request.wf()
        &&& self.instrument_index < snapshot.instruments@.len()
    }
}

/// Start an open-position saga: resolve the instrument and run the day-off
/// validator at the current instant. On success the saga waits for the
/// account to be fetched.
pub fn open_position(snapshot: &ReferenceSnapshot, request: OpenPositionRequest) -> (r: Result<
    OpenPositionFlow,
    TradingExecutorError,
>)
    requires
        request.wf(),
        snapshot_windows_wf(*snapshot),
    ensures
        (r matches Err(e) ==> (e == TradingExecutorError::InstrumentNotFound || e
            == TradingExecutorError::DayOff)),
        (r matches Err(e) && e == TradingExecutorError::InstrumentNotFound) <==> instrument_index(
            snapshot.instruments@,
            request.asset_pair@,
        ) is None,
        r matches Err(e) && e == TradingExecutorError::DayOff ==> (exists|w: WeekTime|
            w.wf() && instrument_day_off(
                snapshot.instruments@[instrument_index(snapshot.instruments@, request.asset_pair@)->0],
                w,
            )),
        r matches Ok(f) ==> {
            &&& f.request == request
            &&& f.step == OpenPositionStep::AwaitingAccount
            &&& instrument_index(snapshot.instruments@, request.asset_pair@) == Some(
                f.instrument_index as int,
            )
            &&& f.wf(*snapshot)
            &&& f.position_id@.len() == 36
            &&& exists|w: WeekTime|
                w.wf() && !instrument_day_off(snapshot.instruments@[f.instrument_index as int], w)
        },
{
    let position_id = new_position_id();

    match snapshot.find_instrument(&request.asset_pair) {
        None => Err(TradingExecutorError::InstrumentNotFound),
        Some(ii) => {
            let now = current_week_time();
            proof {
                assert(instrument_windows_wf(snapshot.instruments@[ii as int]));
            }
            let day = validate_instrument_day_off_at(&snapshot.instruments[ii], &now);
            match day {
                Err(_) => {
                    proof {
                        assert(now.wf() && instrument_day_off(
                            snapshot.instruments@[ii as int],
                            now,
                        ));
                    }
                    Err(TradingExecutorError::DayOff)
                },
                Ok(_) => {
                    proof {
                        assert(now.wf() && !instrument_day_off(
                            snapshot.instruments@[ii as int],
                            now,
                        ));
                    }
                    Ok(OpenPositionFlow {
                        request,
                        position_id,
                        instrument_index: ii,
                        step: OpenPositionStep::AwaitingAccount,
                    })
                },
            }
        },
    }
}

impl OpenPositionFlow {
    /// Feed the account ledger's answer into the saga. A missing account ends
    /// the saga; otherwise the price-freshness rule runs at `now_millis`, the
    /// profile route is resolved, and on success the saga asks its caller to
    /// wait out the drawn execution delay.
    pub fn account_fetched_at(
        &mut self,
        account: Option<Account>,
        snapshot: &ReferenceSnapshot,
        now_millis: i64,
    ) -> (r: OpenProgress)
        requires
            old(self).step == OpenPositionStep::AwaitingAccount,
            old(self).wf(*snapshot),
            account matches Some(acc) ==> (profile_route(
                *snapshot,
                acc.trading_group@,
                old(self).request.asset_pair@,
                old(self).request.leverage,
            ) matches Ok(route) ==> plan_of(*snapshot, route.0, route.1).min_delay_ms < plan_of(
                *snapshot,
                route.0,
                route.1,
            ).max_delay_ms),
        ensures
            final(self).request == old(self).request,
            final(self).position_id == old(self).position_id,
            final(self).instrument_index == old(self).instrument_index,
            account is None ==> {
                &&& final(self).step == OpenPositionStep::Finished
                &&& r matches OpenProgress::Done(res) && res == Err::<
                    ActivePosition,
                    TradingExecutorError,
                >(TradingExecutorError::AccountNotFound)
            },
            account matches Some(acc) ==> {
                let instrument = snapshot.instruments@[old(self).instrument_index as int];
                let fresh = validate_timeout_spec(
                    *snapshot,
                    instrument.id@,
                    instrument.base@,
                    instrument.quote@,
                    acc.currency@,
                    now_millis as int,
                );
                match fresh {
                    Err(e) => {
                        &&& final(self).step == OpenPositionStep::Finished
                        &&& r matches OpenProgress::Done(res) && res == Err::<
                            ActivePosition,
                            TradingExecutorError,
                        >(e)
                    },
                    Ok(_) => match profile_route(
                        *snapshot,
                        acc.trading_group@,
                        old(self).request.asset_pair@,
                        old(self).request.leverage,
                    ) {
                        Err(e) => {
                            &&& final(self).step == OpenPositionStep::Finished
                            &&& r matches OpenProgress::Done(res) && res == Err::<
                                ActivePosition,
                                TradingExecutorError,
                            >(e)
                        },
                        Ok(route) => {
                            let plan = plan_of(*snapshot, route.0, route.1);
                            &&& final(self).step == OpenPositionStep::AwaitingDelay(plan)
                            &&& r matches OpenProgress::Next(OpenAction::Sleep { delay_ms })
                                && plan.min_delay_ms <= delay_ms < plan.max_delay_ms
                        },
                    },
                }
            },
    {
        match account {
            None => {
                self.step = OpenPositionStep::Finished;
                OpenProgress::Done(Err(TradingExecutorError::AccountNotFound))
            },
            Some(acc) => {
                let instrument = &snapshot.instruments[self.instrument_index];
                let fresh = validate_timeout_at(
                    snapshot,
                    instrument,
                    &instrument.base,
                    &instrument.quote,
                    &acc.currency,
                    now_millis,
                );
                match fresh {
                    Err(e) => {
                        self.step = OpenPositionStep::Finished;
                        OpenProgress::Done(Err(e))
                    },
                    Ok(_) => {
                        match resolve_profile_route(
                            snapshot,
                            &acc.trading_group,
                            &self.request.asset_pair,
                            self.request.leverage,
                        ) {
                            Err(e) => {
                                self.step = OpenPositionStep::Finished;
                                OpenProgress::Done(Err(e))
                            },
                            Ok((pi, ti)) => {
                                let policy = &snapshot.profiles[pi].instruments[ti];
                                let plan = OpenPlan {
                                    profile_index: pi,
                                    policy_index: ti,
                                    is_a_book: snapshot.profiles[pi].is_a_book,
                                    stop_out_percent: snapshot.profiles[pi].stop_out_percent,
                                    min_delay_ms: policy.open_position_min_delay_ms,
                                    max_delay_ms: policy.open_position_max_delay_ms,
                                };
                                let delay_ms = delay_open(plan.min_delay_ms, plan.max_delay_ms);
                                self.step = OpenPositionStep::AwaitingDelay(plan);
                                OpenProgress::Next(OpenAction::Sleep { delay_ms })
                            },
                        }
                    },
                }
            },
        }
    }

    /// The execution delay has elapsed. A profile routed to the external
    /// venue submits to the bridge, or fails outright when no bridge is
    /// configured; otherwise the saga proceeds to the balance debit.
    pub fn delay_elapsed(&mut self, bridge_available: bool) -> (r: OpenProgress)
        requires
            old(self).step matches OpenPositionStep::AwaitingDelay(_),
            old(self).request.wf(),
        ensures
            final(self).request == old(self).request,
            final(self).position_id == old(self).position_id,
            final(self).instrument_index == old(self).instrument_index,
            old(self).step matches OpenPositionStep::AwaitingDelay(plan) ==> {
                if plan.is_a_book && !bridge_available {
                    &&& final(self).step == OpenPositionStep::Finished
                    &&& r matches OpenProgress::Done(res) && res == Err::<
                        ActivePosition,
                        TradingExecutorError,
                    >(TradingExecutorError::ABookReject)
                } else if plan.is_a_book {
                    &&& final(self).step == OpenPositionStep::AwaitingBridge(plan)
                    &&& r matches OpenProgress::Next(OpenAction::CallBridge { request })
                        && bridge_request_matches(
                        request,
                        old(self).request,
                        old(self).position_id@,
                    )
                } else {
                    &&& final(self).step == OpenPositionStep::AwaitingDebit(plan)
                    &&& r matches OpenProgress::Next(OpenAction::DebitAccount { request })
                        && debit_request_matches(request, old(self).request)
                }
            },
    {
        let plan = match self.step {
            OpenPositionStep::AwaitingDelay(plan) => plan,
            _ => {
                proof {
                    assert(false);
                }
                self.step = OpenPositionStep::Finished;
                return OpenProgress::Escalate;
            },
        };
        if plan.is_a_book {
            if !bridge_available {
                self.step = OpenPositionStep::Finished;
                return OpenProgress::Done(Err(TradingExecutorError::ABookReject));
            }
            let request = ABookBridgeOpenPositionRequest {
                instrument_id: self.request.asset_pair.clone(),
                position_id: self.position_id.clone(),
                account_id: self.request.account_id.clone(),
                leverage: self.request.leverage,
                invest_amount: self.request.invest_amount,
                side: self.request.side.to_bridge_side(),
            };
            self.step = OpenPositionStep::AwaitingBridge(plan);
            return OpenProgress::Next(OpenAction::CallBridge { request });
        }
        let request = self.make_debit_request();
        self.step = OpenPositionStep::AwaitingDebit(plan);
        OpenProgress::Next(OpenAction::DebitAccount { request })
    }

    /// The balance mutation that charges the invested amount.
    fn make_debit_request(&self) -> (r: BalanceUpdateRequest)
        requires
            self.request.wf(),
        ensures
            debit_request_matches(r, self.request),
    {
        BalanceUpdateRequest {
            trader_id: self.request.trader_id.clone(),
            account_id: self.request.account_id.clone(),
            delta: -self.request.invest_amount,
            comment: "Open position balance charge".to_owned(),
            process_id: self.request.process_id.clone(),
            allow_negative_balance: false,
            reason: UpdateBalanceReason::TradingResult,
        }
    }

    /// The liquidity bridge answered. Status zero accepts the submission and
    /// the saga proceeds to the balance debit; anything else rejects the whole
    /// operation, before any debit was issued.
    pub fn bridge_result(&mut self, status_code: i32) -> (r: OpenProgress)
        requires
            old(self).step matches OpenPositionStep::AwaitingBridge(_),
            old(self).request.wf(),
        ensures
            final(self).request == old(self).request,
            final(self).position_id == old(self).position_id,
            final(self).instrument_index == old(self).instrument_index,
            old(self).step matches OpenPositionStep::AwaitingBridge(plan) ==> {
                if status_code == 0 {
                    &&& final(self).step == OpenPositionStep::AwaitingDebit(plan)
                    &&& r matches OpenProgress::Next(OpenAction::DebitAccount { request })
                        && debit_request_matches(request, old(self).request)
                } else {
                    &&& final(self).step == OpenPositionStep::Finished
                    &&& r matches OpenProgress::Done(res) && res == Err::<
                        ActivePosition,
                        TradingExecutorError,
                    >(TradingExecutorError::ABookReject)
                }
            },
    {
        let plan = match self.step {
            OpenPositionStep::AwaitingBridge(plan) => plan,
            _ => {
                proof {
                    assert(false);
                }
                self.step = OpenPositionStep::Finished;
                return OpenProgress::Escalate;
            },
        };
        if status_code != 0 {
            self.step = OpenPositionStep::Finished;
            return OpenProgress::Done(Err(TradingExecutorError::ABookReject));
        }
        let request = self.make_debit_request();
        self.step = OpenPositionStep::AwaitingDebit(plan);
        OpenProgress::Next(OpenAction::DebitAccount { request })
    }

    /// The account ledger answered the debit. A failed debit ends the saga
    /// with `NotEnoughBalance` and nothing to compensate; a successful one is
    /// followed by the position-create call, which must come strictly after
    /// the confirmed debit.
    pub fn debit_result(&mut self, success: bool, snapshot: &ReferenceSnapshot) -> (r:
        OpenProgress)
        requires
            old(self).step matches OpenPositionStep::AwaitingDebit(_),
            old(self).wf(*snapshot),
        ensures
            final(self).request == old(self).request,
            final(self).position_id == old(self).position_id,
            final(self).instrument_index == old(self).instrument_index,
            !success ==> {
                &&& final(self).step == OpenPositionStep::Finished
                &&& r matches OpenProgress::Done(res) && res == Err::<
                    ActivePosition,
                    TradingExecutorError,
                >(TradingExecutorError::NotEnoughBalance)
            },
            success ==> (old(self).step matches OpenPositionStep::AwaitingDebit(plan) ==> {
                &&& final(self).step == OpenPositionStep::AwaitingCreate(plan)
                &&& r matches OpenProgress::Next(OpenAction::CreatePosition { request })
                    && ledger_open_request_matches(
                    request,
                    old(self).request,
                    old(self).position_id@,
                    plan.stop_out_percent,
                    snapshot.instruments@[old(self).instrument_index as int],
                )
            }),
    {
        let plan = match self.step {
            OpenPositionStep::AwaitingDebit(plan) => plan,
            _ => {
                proof {
                    assert(false);
                }
                self.step = OpenPositionStep::Finished;
                return OpenProgress::Escalate;
            },
        };
        if !success {
            self.step = OpenPositionStep::Finished;
            return OpenProgress::Done(Err(TradingExecutorError::NotEnoughBalance));
        }
        let instrument = &snapshot.instruments[self.instrument_index];
        let request = PositionLedgerOpenRequest {
            id: self.position_id.clone(),
            trader_id: self.request.trader_id.clone(),
            account_id: self.request.account_id.clone(),
            asset_pair: self.request.asset_pair.clone(),
            side: self.request.side,
            invest_amount: self.request.invest_amount,
            leverage: self.request.leverage,
            stop_out_percent: plan.stop_out_percent,
            process_id: self.request.process_id.clone(),
            tp_in_profit: self.request.tp_in_profit,
            sl_in_profit: self.request.sl_in_profit,
            tp_in_asset_price: self.request.tp_in_asset_price,
            sl_in_asset_price: self.request.sl_in_asset_price,
            base: instrument.base.clone(),
            quote: instrument.quote.clone(),
            collateral_currency: "USD".to_owned(),
        };
        self.step = OpenPositionStep::AwaitingCreate(plan);
        OpenProgress::Next(OpenAction::CreatePosition { request })
    }

    /// The position ledger answered the create call. Success ends the saga
    /// with the new active position; failure, coming after a confirmed debit,
    /// demands the compensating credit before anything is reported.
    pub fn create_result(&mut self, position: Option<ActivePosition>) -> (r: OpenProgress)
        requires
            old(self).step matches OpenPositionStep::AwaitingCreate(_),
            old(self).request.wf(),
        ensures
            final(self).request == old(self).request,
            final(self).position_id == old(self).position_id,
            final(self).instrument_index == old(self).instrument_index,
            position matches Some(p) ==> {
                &&& final(self).step == OpenPositionStep::Finished
                &&& r matches OpenProgress::Done(res) && res == Ok::<
                    ActivePosition,
                    TradingExecutorError,
                >(p)
            },
            position is None ==> {
                &&& final(self).step == OpenPositionStep::AwaitingCompensation
                &&& r matches OpenProgress::Next(OpenAction::CreditAccount { request })
                    && credit_request_matches(request, old(self).request)
            },
    {
        match position {
            Some(p) => {
                self.step = OpenPositionStep::Finished;
                OpenProgress::Done(Ok(p))
            },
            None => {
                let request = BalanceUpdateRequest {
                    trader_id: self.request.trader_id.clone(),
                    account_id: self.request.account_id.clone(),
                    delta: self.request.invest_amount,
                    comment: "Cancel open position balance charge".to_owned(),
                    process_id: self.request.process_id.clone(),
                    allow_negative_balance: false,
                    reason: UpdateBalanceReason::TradingResult,
                };
                self.step = OpenPositionStep::AwaitingCompensation;
                OpenProgress::Next(OpenAction::CreditAccount { request })
            },
        }
    }

    /// The account ledger answered the compensating credit. Success surfaces
    /// the original create failure as `TechError`; failure leaves a debited
    /// account with no position, which must be escalated, never swallowed.
    pub fn compensation_result(&mut self, success: bool) -> (r: OpenProgress)
        requires
            old(self).step == OpenPositionStep::AwaitingCompensation,
        ensures
            final(self).request == old(self).request,
            final(self).position_id == old(self).position_id,
            final(self).instrument_index == old(self).instrument_index,
            final(self).step == OpenPositionStep::Finished,
            success ==> (r matches OpenProgress::Done(res) && res == Err::<
                ActivePosition,
                TradingExecutorError,
            >(TradingExecutorError::TechError)),
            !success ==> r is Escalate,
    {
        self.step = OpenPositionStep::Finished;
        if success {
            OpenProgress::Done(Err(TradingExecutorError::TechError))
        } else {
            OpenProgress::Escalate
        }
    }
}

/// The answers that the remote collaborators give during one saga run: the
/// bridge's availability and status, and the position the position ledger
/// created, if any.
pub struct OpenSagaScript {
    pub bridge_available: bool,
    pub bridge_status_code: i32,
    pub created_position: Option<ActivePosition>,
}

/// Run the whole open-position saga to completion against the reference
/// snapshot, the in-memory account ledger, and the scripted answers of the
/// other collaborators.
///
/// The contract carries the saga's two central guarantees. First, the
/// compensation invariant: every failing run leaves the account balance
/// exactly as it was; in particular, when the position-create call fails
/// after a successful debit, the reversing credit is recorded and the net
/// effect on the ledger is nothing. Second, a successful run debits the
/// account by exactly the invested amount and returns exactly the position
/// the position ledger created.
pub fn run_open_position(
    snapshot: &ReferenceSnapshot,
    request: OpenPositionRequest,
    ledger: &mut InMemoryAccountLedger,
    script: OpenSagaScript,
) -> (r: Result<ActivePosition, TradingExecutorError>)
    requires
        request.wf(),
        snapshot_windows_wf(*snapshot),
        old(ledger).wf(),
        old(ledger).account.balance + request.invest_amount <= i64::MAX,
        profile_route(
            *snapshot,
            old(ledger).account.trading_group@,
            request.asset_pair@,
            request.leverage,
        ) matches Ok(route) ==> plan_of(*snapshot, route.0, route.1).min_delay_ms < plan_of(
            *snapshot,
            route.0,
            route.1,
        ).max_delay_ms,
    ensures
        final(ledger).account.trader_id == old(ledger).account.trader_id,
        final(ledger).account.account_id == old(ledger).account.account_id,
        final(ledger).account.currency == old(ledger).account.currency,
        final(ledger).account.trading_group == old(ledger).account.trading_group,
        r is Err ==> final(ledger).account.balance == old(ledger).account.balance,
        (r matches Err(e) && e != TradingExecutorError::TechError) ==> *final(ledger) == *old(ledger),
        r == Err::<ActivePosition, TradingExecutorError>(TradingExecutorError::TechError)
            ==> final(ledger).applied_deltas@ == old(ledger).applied_deltas@.push(
            (-request.invest_amount) as i64,
        ).push(request.invest_amount),
        r is Ok ==> final(ledger).account.balance == old(ledger).account.balance
            - request.invest_amount,
        r is Ok ==> final(ledger).applied_deltas@ == old(ledger).applied_deltas@.push(
            (-request.invest_amount) as i64,
        ),
        r matches Ok(p) ==> script.created_position == Some(p),
        ({
            &&& old(ledger).account.trader_id@ == request.trader_id@
            &&& old(ledger).account.account_id@ == request.account_id@
            &&& old(ledger).account.balance >= request.invest_amount
            &&& instrument_index(snapshot.instruments@, request.asset_pair@) matches Some(ii)
                && (forall|w: WeekTime|
                w.wf() ==> !instrument_day_off(snapshot.instruments@[ii], w)) && (forall|now: int|
                validate_timeout_spec(
                    *snapshot,
                    snapshot.instruments@[ii].id@,
                    snapshot.instruments@[ii].base@,
                    snapshot.instruments@[ii].quote@,
                    old(ledger).account.currency@,
                    now,
                ) == Ok::<(), TradingExecutorError>(()))
            &&& profile_route(
                *snapshot,
                old(ledger).account.trading_group@,
                request.asset_pair@,
                request.leverage,
            ) matches Ok(route) && (snapshot.profiles@[route.0].is_a_book
                ==> script.bridge_available && script.bridge_status_code == 0)
            &&& script.created_position is Some
        }) ==> r is Ok,
{
    let mut flow = match open_position(snapshot, request) {
        Err(e) => {
            return Err(e);
        },
        Ok(f) => f,
    };

    let account = ledger.get_account(&flow.request.trader_id, &flow.request.account_id);
    let now_millis = current_unix_millis();
    let progress = flow.account_fetched_at(account, snapshot, now_millis);
    match progress {
        OpenProgress::Done(res) => {
            return res;
        },
        OpenProgress::Next(OpenAction::Sleep { .. }) => {},
        _ => {
            proof {
                assert(false);
            }
            return Err(TradingExecutorError::TechError);
        },
    }

    // The execution delay is a pure time suspension with no side effects;
    // running the saga against in-memory collaborators does not wait it out.
    let progress = flow.delay_elapsed(script.bridge_available);
    let debit_request = match progress {
        OpenProgress::Done(res) => {
            return res;
        },
        OpenProgress::Next(OpenAction::CallBridge { request: _ }) => {
            let progress = flow.bridge_result(script.bridge_status_code);
            match progress {
                OpenProgress::Done(res) => {
                    return res;
                },
                OpenProgress::Next(OpenAction::DebitAccount { request }) => request,
                _ => {
                    proof {
                        assert(false);
                    }
                    return Err(TradingExecutorError::TechError);
                },
            }
        },
        OpenProgress::Next(OpenAction::DebitAccount { request }) => request,
        _ => {
            proof {
                assert(false);
            }
            return Err(TradingExecutorError::TechError);
        },
    };

    let debited = ledger.update_balance(debit_request.delta, debit_request.allow_negative_balance);
    let progress = flow.debit_result(debited, snapshot);
    match progress {
        OpenProgress::Done(res) => {
            return res;
        },
        OpenProgress::Next(OpenAction::CreatePosition { request: _ }) => {},
        _ => {
            proof {
                assert(false);
            }
            return Err(TradingExecutorError::TechError);
        },
    }

    let progress = flow.create_result(script.created_position);
    let credit_request = match progress {
        OpenProgress::Done(res) => {
            return res;
        },
        OpenProgress::Next(OpenAction::CreditAccount { request }) => request,
        _ => {
            proof {
                assert(false);
            }
            return Err(TradingExecutorError::TechError);
        },
    };

    let credited = ledger.update_balance(
        credit_request.delta,
        credit_request.allow_negative_balance,
    );
    let progress = flow.compensation_result(credited);
    match progress {
        OpenProgress::Done(res) => res,
        _ => {
            proof {
                assert(false);
            }
            Err(TradingExecutorError::TechError)
        },
    }
}

/// If a trader's group, profile and instrument policy all resolve but the
/// requested leverage is not in the policy's allowed set, the route is
/// rejected as `MultiplierIsNotFound`, whatever else the request holds.
pub proof fn lemma_leverage_rejected(
    snapshot: ReferenceSnapshot,
    trading_group: Seq<char>,
    asset_pair: Seq<char>,
    leverage: i32,
)
    requires
        group_index(snapshot.groups@, trading_group) matches Some(gi) && profile_index(
            snapshot.profiles@,
            snapshot.groups@[gi].trading_profile_id@,
        ) matches Some(pi) && profile_instrument_index(
            snapshot.profiles@[pi].instruments@,
            asset_pair,
        ) matches Some(ti) && !leverage_allowed(
            snapshot.profiles@[pi].instruments@[ti].leverages@,
            leverage,
        ),
    ensures
        profile_route(snapshot, trading_group, asset_pair, leverage) == Err::<
            (int, int),
            TradingExecutorError,
        >(TradingExecutorError::MultiplierIsNotFound),
{
}

} // verus!
