use vstd::prelude::*;

use crate::clock::{current_unix_millis, current_week_time, WeekTime};
use crate::errors::TradingExecutorError;
use crate::models::{
    Account, ActivePosition, ClosePositionRequest, ClosedPosition, PositionLedgerCloseRequest,
};
use crate::reference_data::{instrument_index, ReferenceSnapshot};
use crate::flows::open_position_flow::snapshot_windows_wf;
use crate::flows::validate_day_off::{
    instrument_day_off, instrument_windows_wf, validate_instrument_day_off_at,
};
use crate::flows::validate_prices_timeout::{validate_timeout_at, validate_timeout_spec};

verus! {

/// Where the close-position saga stands between two collaborator calls.
pub enum ClosePositionStep {
    AwaitingAccount,
    AwaitingPosition { account: Account },
    AwaitingClose,
    Finished,
}

/// The outside work the close saga asks its caller to perform next.
pub enum CloseAction {
    FetchPosition { trader_id: String, account_id: String, position_id: String },
    SubmitClose { request: PositionLedgerCloseRequest },
}

/// What a close-saga step hands back.
pub enum CloseProgress {
    Next(CloseAction),
    Done(Result<ClosedPosition, TradingExecutorError>),
}

/// The close-position saga: the account and position must exist, the
/// instrument must be known, tradable at this hour and freshly quoted, and
/// only then is the close submitted to the position ledger.
pub struct ClosePositionFlow {
    pub request: ClosePositionRequest,
    pub step: ClosePositionStep,
}

/// The validations run once the target position is known: its instrument
/// must be in the snapshot, outside every blackout window at `now_week`, and
/// the price-freshness rule must pass at `now_millis` against the account's
/// settlement currency.
pub open spec fn close_validation(
    snapshot: ReferenceSnapshot,
    account: Account,
    position: ActivePosition,
    now_week: WeekTime,
    now_millis: int,
) -> Result<(), TradingExecutorError> {
    match instrument_index(snapshot.instruments@, position.asset_pair@) {
        None => Err(TradingExecutorError::InstrumentNotFound),
        Some(ii) => {
            let instrument = snapshot.instruments@[ii];
            if instrument_day_off(instrument, now_week) {
                Err(TradingExecutorError::DayOff)
            } else {
                validate_timeout_spec(
                    snapshot,
                    instrument.id@,
                    instrument.base@,
                    instrument.quote@,
                    account.currency@,
                    now_millis,
                )
            }
        },
    }
}

/// The close request sent to the position ledger.
pub open spec fn close_request_matches(
    req: PositionLedgerCloseRequest,
    r: ClosePositionRequest,
) -> bool {
    &&& req.trader_id@ == r.trader_id@
    &&& req.account_id@ == r.account_id@
    &&& req.position_id@ == r.position_id@
    &&& req.process_id@ == r.process_id@
}

/// Start a close-position saga; the caller is to fetch the account first.
pub fn close_position(request: ClosePositionRequest) -> (f: ClosePositionFlow)
    ensures
        f.request == request,
        f.step is AwaitingAccount,
{
    ClosePositionFlow { request, step: ClosePositionStep::AwaitingAccount }
}

impl ClosePositionFlow {
    /// Feed the account ledger's answer into the saga. A missing account
    /// ends the saga; otherwise the caller is to fetch the target position.
    pub fn account_fetched(&mut self, account: Option<Account>) -> (r: CloseProgress)
        requires
            old(self).step is AwaitingAccount,
        ensures
            final(self).request == old(self).request,
            account is None ==> {
                &&& final(self).step is Finished
                &&& r matches CloseProgress::Done(res) && res == Err::<
                    ClosedPosition,
                    TradingExecutorError,
                >(TradingExecutorError::AccountNotFound)
            },
            account matches Some(acc) ==> {
                &&& final(self).step matches ClosePositionStep::AwaitingPosition { account: a }
                    && a == acc
                &&& r matches CloseProgress::Next(CloseAction::FetchPosition {
                    trader_id,
                    account_id,
                    position_id,
                }) && trader_id@ == old(self).request.trader_id@ && account_id@ == old(
                    self,
                ).request.account_id@ && position_id@ == old(self).request.position_id@
            },
    {
        match account {
            None => {
                self.step = ClosePositionStep::Finished;
                CloseProgress::Done(Err(TradingExecutorError::AccountNotFound))
            },
            Some(acc) => {
                let trader_id = self.request.trader_id.clone();
                let account_id = self.request.account_id.clone();
                let position_id = self.request.position_id.clone();
                self.step = ClosePositionStep::AwaitingPosition { account: acc };
                CloseProgress::Next(CloseAction::FetchPosition {
                    trader_id,
                    account_id,
                    position_id,
                })
            },
        }
    }

    /// Feed the position ledger's answer into the saga and run the remaining
    /// validations at the given instants. A missing position ends the saga;
    /// a validation failure is returned unchanged; otherwise the close is
    /// submitted.
    pub fn position_fetched_at(
        &mut self,
        position: Option<ActivePosition>,
        snapshot: &ReferenceSnapshot,
        now_week: &WeekTime,
        now_millis: i64,
    ) -> (r: CloseProgress)
        requires
            old(self).step matches ClosePositionStep::AwaitingPosition { .. },
            snapshot_windows_wf(*snapshot),
            now_week.wf(),
        ensures
            final(self).request == old(self).request,
            position is None ==> {
                &&& final(self).step is Finished
                &&& r matches CloseProgress::Done(res) && res == Err::<
                    ClosedPosition,
                    TradingExecutorError,
                >(TradingExecutorError::PositionNotFound)
            },
            position matches Some(p) ==> (old(self).step matches ClosePositionStep::AwaitingPosition {
                account: acc,
            } ==> {
                match close_validation(*snapshot, acc, p, *now_week, now_millis as int) {
                    Err(e) => {
                        &&& final(self).step is Finished
                        &&& r matches CloseProgress::Done(res) && res == Err::<
                            ClosedPosition,
                            TradingExecutorError,
                        >(e)
                    },
                    Ok(_) => {
                        &&& final(self).step is AwaitingClose
                        &&& r matches CloseProgress::Next(CloseAction::SubmitClose { request })
                            && close_request_matches(request, old(self).request)
                    },
                }
            }),
    {
        match position {
            None => {
                self.step = ClosePositionStep::Finished;
                CloseProgress::Done(Err(TradingExecutorError::PositionNotFound))
            },
            Some(p) => {
                let currency = match &self.step {
                    ClosePositionStep::AwaitingPosition { account } => account.currency.clone(),
                    _ => {
                        proof {
                            assert(false);
                        }
                        return CloseProgress::Done(Err(TradingExecutorError::TechError));
                    },
                };
                match snapshot.find_instrument(&p.asset_pair) {
                    None => {
                        self.step = ClosePositionStep::Finished;
                        CloseProgress::Done(Err(TradingExecutorError::InstrumentNotFound))
                    },
                    Some(ii) => {
                        let instrument = &snapshot.instruments[ii];
                        proof {
                            assert(instrument_windows_wf(snapshot.instruments@[ii as int]));
                        }
                        let day = validate_instrument_day_off_at(instrument, now_week);
                        if day.is_err() {
                            self.step = ClosePositionStep::Finished;
                            return CloseProgress::Done(Err(TradingExecutorError::DayOff));
                        }
                        let fresh = validate_timeout_at(
                            snapshot,
                            instrument,
                            &instrument.base,
                            &instrument.quote,
                            &currency,
                            now_millis,
                        );
                        match fresh {
                            Err(e) => {
                                self.step = ClosePositionStep::Finished;
                                CloseProgress::Done(Err(e))
                            },
                            Ok(_) => {
                                let request = PositionLedgerCloseRequest {
                                    trader_id: self.request.trader_id.clone(),
                                    account_id: self.request.account_id.clone(),
                                    position_id: self.request.position_id.clone(),
                                    process_id: self.request.process_id.clone(),
                                };
                                self.step = ClosePositionStep::AwaitingClose;
                                CloseProgress::Next(CloseAction::SubmitClose { request })
                            },
                        }
                    },
                }
            },
        }
    }

    /// Feed the position ledger's answer into the saga, reading the current
    /// instant from the clock. The result is exactly the validation at the
    /// instants that were read.
    pub fn position_fetched(
        &mut self,
        position: Option<ActivePosition>,
        snapshot: &ReferenceSnapshot,
    ) -> (r: CloseProgress)
        requires
            old(self).step matches ClosePositionStep::AwaitingPosition { .. },
            snapshot_windows_wf(*snapshot),
        ensures
            final(self).request == old(self).request,
            position is None ==> {
                &&& final(self).step is Finished
                &&& r matches CloseProgress::Done(res) && res == Err::<
                    ClosedPosition,
                    TradingExecutorError,
                >(TradingExecutorError::PositionNotFound)
            },
            position matches Some(p) ==> (old(self).step matches ClosePositionStep::AwaitingPosition {
                account: acc,
            } ==> exists|w: WeekTime, now: int|
                #![trigger close_validation(*snapshot, acc, p, w, now)]
                {
                    &&& w.wf()
                    &&& match close_validation(*snapshot, acc, p, w, now) {
                        Err(e) => {
                            &&& final(self).step is Finished
                            &&& r matches CloseProgress::Done(res) && res == Err::<
                                ClosedPosition,
                                TradingExecutorError,
                            >(e)
                        },
                        Ok(_) => {
                            &&& final(self).step is AwaitingClose
                            &&& r matches CloseProgress::Next(CloseAction::SubmitClose { request })
                                && close_request_matches(request, old(self).request)
                        },
                    }
                }),
    {
        let now_week = current_week_time();
        let now_millis = current_unix_millis();
        let r = self.position_fetched_at(position, snapshot, &now_week, now_millis);
        r
    }

    /// Feed the ledger's close answer into the saga: the closed position on
    /// success, or the ledger's status code translated into the error
    /// taxonomy. The ledger reports rejections only as codes 1 and 2.
    pub fn close_result(&mut self, position: Option<ClosedPosition>, status: i32) -> (r: Result<
        ClosedPosition,
        TradingExecutorError,
    >)
        requires
            old(self).step is AwaitingClose,
            position is None ==> status == 1 || status == 2,
        ensures
            final(self).request == old(self).request,
            final(self).step is Finished,
            position matches Some(p) ==> r == Ok::<ClosedPosition, TradingExecutorError>(p),
            position is None && status == 1 ==> r == Err::<ClosedPosition, TradingExecutorError>(
                TradingExecutorError::NoLiquidity,
            ),
            position is None && status == 2 ==> r == Err::<ClosedPosition, TradingExecutorError>(
                TradingExecutorError::PositionNotFound,
            ),
    {
        self.step = ClosePositionStep::Finished;
        match position {
            Some(p) => Ok(p),
            None => Err(TradingExecutorError::from_status(status)),
        }
    }
}

} // verus!
