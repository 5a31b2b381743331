use vstd::prelude::*;

use crate::errors::TradingExecutorError;
use crate::models::{Account, ActivePosition, PositionLedgerUpdateSlTpRequest, UpdateSlTpRequest};
use crate::reference_data::{group_index, profile_index, ReferenceSnapshot};

verus! {

/// Where the amend saga stands between two collaborator calls.
#[derive(Clone, Copy, Debug, PartialEq, Eq, Structural)]
pub enum UpdateSlTpStep {
    AwaitingAccount,
    AwaitingUpdate,
    Finished,
}

/// What an amend step hands back.
pub enum UpdateSlTpProgress {
    Next(PositionLedgerUpdateSlTpRequest),
    Done(Result<ActivePosition, TradingExecutorError>),
}

/// The amend saga: resolving the account's group and profile acts as an
/// authorization check — a trader with no valid profile cannot amend — and
/// only then are the new stop-loss/take-profit fields forwarded to the
/// position ledger.
pub struct UpdateSlTpFlow {
    pub request: UpdateSlTpRequest,
    pub step: UpdateSlTpStep,
}

/// The authorization check: the account's trading group must exist in the
/// snapshot and its trading profile must resolve.
pub open spec fn profile_exists_check(
    snapshot: ReferenceSnapshot,
    trading_group: Seq<char>,
) -> Result<(), TradingExecutorError> {
    match group_index(snapshot.groups@, trading_group) {
        None => Err(TradingExecutorError::TradingGroupNotFound),
        Some(gi) => match profile_index(
            snapshot.profiles@,
            snapshot.groups@[gi].trading_profile_id@,
        ) {
            None => Err(TradingExecutorError::TradingProfileNotFound),
            Some(_) => Ok(()),
        },
    }
}

/// The amend request sent to the position ledger.
pub open spec fn update_request_matches(
    req: PositionLedgerUpdateSlTpRequest,
    r: UpdateSlTpRequest,
) -> bool {
    &&& req.trader_id@ == r.trader_id@
    &&& req.account_id@ == r.account_id@
    &&& req.position_id@ == r.position_id@
    &&& req.process_id@ == r.process_id@
    &&& req.tp_in_profit == r.tp_in_profit
    &&& req.sl_in_profit == r.sl_in_profit
    &&& req.tp_in_asset_price == r.tp_in_asset_price
    &&& req.sl_in_asset_price == r.sl_in_asset_price
}

/// Start an amend saga; the caller is to fetch the account first.
pub fn update_sl_tp(request: UpdateSlTpRequest) -> (f: UpdateSlTpFlow)
    ensures
        f.request == request,
        f.step == UpdateSlTpStep::AwaitingAccount,
{
    UpdateSlTpFlow { request, step: UpdateSlTpStep::AwaitingAccount }
}

impl UpdateSlTpFlow {
    /// Feed the account ledger's answer into the saga. A missing account or
    /// an unresolvable group or profile ends the saga; otherwise the amend
    /// request is forwarded unchanged.
    pub fn account_fetched(&mut self, account: Option<Account>, snapshot: &ReferenceSnapshot) -> (r:
        UpdateSlTpProgress)
        requires
            old(self).step == UpdateSlTpStep::AwaitingAccount,
        ensures
            final(self).request == old(self).request,
            account is None ==> {
                &&& final(self).step == UpdateSlTpStep::Finished
                &&& r matches UpdateSlTpProgress::Done(res) && res == Err::<
                    ActivePosition,
                    TradingExecutorError,
                >(TradingExecutorError::AccountNotFound)
            },
            account matches Some(acc) ==> match profile_exists_check(
                *snapshot,
                acc.trading_group@,
            ) {
                Err(e) => {
                    &&& final(self).step == UpdateSlTpStep::Finished
                    &&& r matches UpdateSlTpProgress::Done(res) && res == Err::<
                        ActivePosition,
                        TradingExecutorError,
                    >(e)
                },
                Ok(_) => {
                    &&& final(self).step == UpdateSlTpStep::AwaitingUpdate
                    &&& r matches UpdateSlTpProgress::Next(request) && update_request_matches(
                        request,
                        old(self).request,
                    )
                },
            },
    {
        match account {
            None => {
                self.step = UpdateSlTpStep::Finished;
                UpdateSlTpProgress::Done(Err(TradingExecutorError::AccountNotFound))
            },
            Some(acc) => {
                match snapshot.find_group(&acc.trading_group) {
                    None => {
                        self.step = UpdateSlTpStep::Finished;
                        UpdateSlTpProgress::Done(Err(TradingExecutorError::TradingGroupNotFound))
                    },
                    Some(gi) => {
                        match snapshot.find_profile(&snapshot.groups[gi].trading_profile_id) {
                            None => {
                                self.step = UpdateSlTpStep::Finished;
                                UpdateSlTpProgress::Done(
                                    Err(TradingExecutorError::TradingProfileNotFound),
                                )
                            },
                            Some(_) => {
                                let request = PositionLedgerUpdateSlTpRequest {
                                    trader_id: self.request.trader_id.clone(),
                                    account_id: self.request.account_id.clone(),
                                    position_id: self.request.position_id.clone(),
                                    process_id: self.request.process_id.clone(),
                                    tp_in_profit: self.request.tp_in_profit,
                                    sl_in_profit: self.request.sl_in_profit,
                                    tp_in_asset_price: self.request.tp_in_asset_price,
                                    sl_in_asset_price: self.request.sl_in_asset_price,
                                };
                                self.step = UpdateSlTpStep::AwaitingUpdate;
                                UpdateSlTpProgress::Next(request)
                            },
                        }
                    },
                }
            },
        }
    }

    /// Feed the ledger's amend answer into the saga: the updated position on
    /// success, or the ledger's status code translated into the error
    /// taxonomy. The ledger reports rejections only as codes 1 and 2.
    pub fn update_result(&mut self, position: Option<ActivePosition>, status: i32) -> (r: Result<
        ActivePosition,
        TradingExecutorError,
    >)
        requires
            old(self).step == UpdateSlTpStep::AwaitingUpdate,
            position is None ==> status == 1 || status == 2,
        ensures
            final(self).request == old(self).request,
            final(self).step == UpdateSlTpStep::Finished,
            position matches Some(p) ==> r == Ok::<ActivePosition, TradingExecutorError>(p),
            position is None && status == 1 ==> r == Err::<ActivePosition, TradingExecutorError>(
                TradingExecutorError::NoLiquidity,
            ),
            position is None && status == 2 ==> r == Err::<ActivePosition, TradingExecutorError>(
                TradingExecutorError::PositionNotFound,
            ),
    {
        self.step = UpdateSlTpStep::Finished;
        match position {
            Some(p) => Ok(p),
            None => Err(TradingExecutorError::from_status(status)),
        }
    }
}

} // verus!
