use vstd::prelude::*;

use crate::errors::TradingExecutorError;
use crate::models::{
    Account, CancelPendingRequest, OpenPendingRequest, PendingPosition,
    PositionLedgerCancelPendingRequest, PositionLedgerOpenPendingRequest,
};
use crate::reference_data::{instrument_index, ReferenceSnapshot, TradingInstrument};
use crate::flows::open_position_flow::{new_position_id, plan_of, profile_route, resolve_profile_route};

verus! {

/// Where the open-limit saga stands between two collaborator calls.
#[derive(Clone, Copy, Debug, PartialEq, Eq, Structural)]
pub enum OpenLimitStep {
    AwaitingAccount,
    AwaitingCreate,
    Finished,
}

/// What an open-limit step hands back.
pub enum OpenLimitProgress {
    Next(PositionLedgerOpenPendingRequest),
    Done(Result<PendingPosition, TradingExecutorError>),
}

/// The open-limit saga: it mirrors the open-position validations that
/// resolve the instrument, account, group, profile and leverage, but debits
/// nothing, applies no execution delay and never touches the liquidity
/// bridge — funds are reserved only at fill time.
pub struct OpenLimitFlow {
    pub request: OpenPendingRequest,
    pub position_id: String,
    pub instrument_index: usize,
    pub step: OpenLimitStep,
}

/// The open-pending request sent to the position ledger.
pub open spec fn pending_request_matches(
    req: PositionLedgerOpenPendingRequest,
    r: OpenPendingRequest,
    position_id: Seq<char>,
    stop_out_percent: u32,
    instrument: TradingInstrument,
) -> bool {
    &&& req.id@ == position_id
    &&& req.trader_id@ == r.trader_id@
    &&& req.account_id@ == r.account_id@
    &&& req.asset_pair@ == r.asset_pair@
    &&& req.side == r.side
    &&& req.invest_amount == r.invest_amount
    &&& req.leverage == r.leverage
    &&& req.stop_out_percent == stop_out_percent
    &&& req.process_id@ == r.process_id@
    &&& req.tp_in_profit == r.tp_in_profit
    &&& req.sl_in_profit == r.sl_in_profit
    &&& req.tp_in_asset_price == r.tp_in_asset_price
    &&& req.sl_in_asset_price == r.sl_in_asset_price
    &&& req.base@ == instrument.base@
    &&& req.quote@ == instrument.quote@
    &&& req.collateral_currency@ == "USD"@
    &&& req.desire_price == r.desire_price
}

/// Start an open-limit saga: resolve the instrument; on success the saga
/// waits for the account to be fetched.
pub fn open_limit(snapshot: &ReferenceSnapshot, request: OpenPendingRequest) -> (r: Result<
    OpenLimitFlow,
    TradingExecutorError,
>)
    requires
        request.wf(),
    ensures
        r is Err <==> instrument_index(snapshot.instruments@, request.asset_pair@) is None,
        r matches Err(e) ==> e == TradingExecutorError::InstrumentNotFound,
        r matches Ok(f) ==> {
            &&& f.request == request
            &&& f.step == OpenLimitStep::AwaitingAccount
            &&& instrument_index(snapshot.instruments@, request.asset_pair@) == Some(
                f.instrument_index as int,
            )
            &&& f.instrument_index < snapshot.instruments@.len()
            &&& f.request.wf()
            &&& f.position_id@.len() == 36
        },
{
    let position_id = new_position_id();
    match snapshot.find_instrument(&request.asset_pair) {
        None => Err(TradingExecutorError::InstrumentNotFound),
        Some(ii) => Ok(
            OpenLimitFlow {
                request,
                position_id,
                instrument_index: ii,
                step: OpenLimitStep::AwaitingAccount,
            },
        ),
    }
}

impl OpenLimitFlow {
    /// Feed the account ledger's answer into the saga. A missing account
    /// ends the saga; otherwise the profile route is resolved and, on
    /// success, the open-pending request is submitted with a desired fill
    /// price and without any balance debit.
    pub fn account_fetched(&mut self, account: Option<Account>, snapshot: &ReferenceSnapshot) -> (r:
        OpenLimitProgress)
        requires
            old(self).step == OpenLimitStep::AwaitingAccount,
            old(self).request.wf(),
            old(self).instrument_index < snapshot.instruments@.len(),
        ensures
            final(self).request == old(self).request,
            final(self).position_id == old(self).position_id,
            final(self).instrument_index == old(self).instrument_index,
            account is None ==> {
                &&& final(self).step == OpenLimitStep::Finished
                &&& r matches OpenLimitProgress::Done(res) && res == Err::<
                    PendingPosition,
                    TradingExecutorError,
                >(TradingExecutorError::AccountNotFound)
            },
            account matches Some(acc) ==> match profile_route(
                *snapshot,
                acc.trading_group@,
                old(self).request.asset_pair@,
                old(self).request.leverage,
            ) {
                Err(e) => {
                    &&& final(self).step == OpenLimitStep::Finished
                    &&& r matches OpenLimitProgress::Done(res) && res == Err::<
                        PendingPosition,
                        TradingExecutorError,
                    >(e)
                },
                Ok(route) => {
                    &&& final(self).step == OpenLimitStep::AwaitingCreate
                    &&& r matches OpenLimitProgress::Next(request) && pending_request_matches(
                        request,
                        old(self).request,
                        old(self).position_id@,
                        plan_of(*snapshot, route.0, route.1).stop_out_percent,
                        snapshot.instruments@[old(self).instrument_index as int],
                    )
                },
            },
    {
        match account {
            None => {
                self.step = OpenLimitStep::Finished;
                OpenLimitProgress::Done(Err(TradingExecutorError::AccountNotFound))
            },
            Some(acc) => {
                match resolve_profile_route(
                    snapshot,
                    &acc.trading_group,
                    &self.request.asset_pair,
                    self.request.leverage,
                ) {
                    Err(e) => {
                        self.step = OpenLimitStep::Finished;
                        OpenLimitProgress::Done(Err(e))
                    },
                    Ok((pi, _ti)) => {
                        let instrument = &snapshot.instruments[self.instrument_index];
                        let request = PositionLedgerOpenPendingRequest {
                            id: self.position_id.clone(),
                            trader_id: self.request.trader_id.clone(),
                            account_id: self.request.account_id.clone(),
                            asset_pair: self.request.asset_pair.clone(),
                            side: self.request.side,
                            invest_amount: self.request.invest_amount,
                            leverage: self.request.leverage,
                            stop_out_percent: snapshot.profiles[pi].stop_out_percent,
                            process_id: self.request.process_id.clone(),
                            tp_in_profit: self.request.tp_in_profit,
                            sl_in_profit: self.request.sl_in_profit,
                            tp_in_asset_price: self.request.tp_in_asset_price,
                            sl_in_asset_price: self.request.sl_in_asset_price,
                            base: instrument.base.clone(),
                            quote: instrument.quote.clone(),
                            collateral_currency: "USD".to_owned(),
                            desire_price: self.request.desire_price,
                        };
                        self.step = OpenLimitStep::AwaitingCreate;
                        OpenLimitProgress::Next(request)
                    },
                }
            },
        }
    }

    /// Feed the position ledger's answer into the saga: the pending order on
    /// success, `PositionNotFound` when the ledger returned none.
    pub fn pending_result(&mut self, position: Option<PendingPosition>) -> (r: Result<
        PendingPosition,
        TradingExecutorError,
    >)
        requires
            old(self).step == OpenLimitStep::AwaitingCreate,
        ensures
            final(self).request == old(self).request,
            final(self).step == OpenLimitStep::Finished,
            position matches Some(p) ==> r == Ok::<PendingPosition, TradingExecutorError>(p),
            position is None ==> r == Err::<PendingPosition, TradingExecutorError>(
                TradingExecutorError::PositionNotFound,
            ),
    {
        self.step = OpenLimitStep::Finished;
        match position {
            Some(p) => Ok(p),
            None => Err(TradingExecutorError::PositionNotFound),
        }
    }
}

/// Translate a cancel-pending request into the position ledger's vocabulary;
/// the operation is a direct pass-through keyed by trader, account and
/// position.
pub fn cancel_pending(request: CancelPendingRequest) -> (r: PositionLedgerCancelPendingRequest)
    ensures
        r.trader_id@ == request.trader_id@,
        r.account_id@ == request.account_id@,
        r.id@ == request.position_id@,
{
    PositionLedgerCancelPendingRequest {
        trader_id: request.trader_id,
        account_id: request.account_id,
        id: request.position_id,
    }
}

/// Translate the ledger's cancel answer: the cancelled order, or
/// `PositionNotFound` when the ledger returned none.
pub fn cancel_pending_result(position: Option<PendingPosition>) -> (r: Result<
    PendingPosition,
    TradingExecutorError,
>)
    ensures
        position matches Some(p) ==> r == Ok::<PendingPosition, TradingExecutorError>(p),
        position is None ==> r == Err::<PendingPosition, TradingExecutorError>(
            TradingExecutorError::PositionNotFound,
        ),
{
    match position {
        Some(p) => Ok(p),
        None => Err(TradingExecutorError::PositionNotFound),
    }
}

} // verus!
