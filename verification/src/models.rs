use vstd::prelude::*;

verus! {

/// Side of a position.
#[derive(Clone, Copy, Debug, PartialEq, Eq, Structural)]
pub enum PositionSide {
    Buy,
    Sell,
}

/// Side vocabulary of the external liquidity bridge.
#[derive(Clone, Copy, Debug, PartialEq, Eq, Structural)]
pub enum ABookBridgePositionSide {
    Buy,
    Sell,
}

/// Why a balance mutation was requested of the account ledger.
#[derive(Clone, Copy, Debug, PartialEq, Eq, Structural)]
pub enum UpdateBalanceReason {
    TradingResult,
}

impl PositionSide {
    /// Translate the orchestrator's side into the bridge's side vocabulary.
    pub fn to_bridge_side(self) -> (r: ABookBridgePositionSide)
        ensures
            self == PositionSide::Buy <==> r == ABookBridgePositionSide::Buy,
            self == PositionSide::Sell <==> r == ABookBridgePositionSide::Sell,
    {
        match self {
            PositionSide::Buy => ABookBridgePositionSide::Buy,
            PositionSide::Sell => ABookBridgePositionSide::Sell,
        }
    }
}

/// A trader's account as the account ledger reports it. Monetary amounts are
/// carried in the account currency's minor units.
#[derive(Debug, Clone, PartialEq, Eq)]
pub struct Account {
    pub trader_id: String,
    pub account_id: String,
    pub balance: i64,
    pub currency: String,
    pub trading_group: String,
}

impl Account {
    pub open spec fn wf(self) -> bool {
        self.balance >= 0
    }
}

/// An inbound request to open a market position.
#[derive(Debug, Clone, PartialEq, Eq)]
pub struct OpenPositionRequest {
    pub trader_id: String,
    pub account_id: String,
    pub process_id: String,
    pub asset_pair: String,
    pub side: PositionSide,
    pub invest_amount: i64,
    pub leverage: i32,
    pub tp_in_profit: Option<i64>,
    pub sl_in_profit: Option<i64>,
    pub tp_in_asset_price: Option<i64>,
    pub sl_in_asset_price: Option<i64>,
}

impl OpenPositionRequest {
    pub open spec fn wf(self) -> bool {
        self.invest_amount > 0
    }
}

/// An inbound request to close an active position.
#[derive(Debug, Clone, PartialEq, Eq)]
pub struct ClosePositionRequest {
    pub trader_id: String,
    pub account_id: String,
    pub position_id: String,
    pub process_id: String,
}

/// An inbound request to place a pending (limit) order.
#[derive(Debug, Clone, PartialEq, Eq)]
pub struct OpenPendingRequest {
    pub trader_id: String,
    pub account_id: String,
    pub process_id: String,
    pub asset_pair: String,
    pub side: PositionSide,
    pub invest_amount: i64,
    pub leverage: i32,
    pub tp_in_profit: Option<i64>,
    pub sl_in_profit: Option<i64>,
    pub tp_in_asset_price: Option<i64>,
    pub sl_in_asset_price: Option<i64>,
    pub desire_price: i64,
}

impl OpenPendingRequest {
    pub open spec fn wf(self) -> bool {
        self.invest_amount > 0
    }
}

/// An inbound request to cancel a pending order.
#[derive(Debug, Clone, PartialEq, Eq)]
pub struct CancelPendingRequest {
    pub trader_id: String,
    pub account_id: String,
    pub position_id: String,
}

/// An inbound request to amend the stop-loss/take-profit of a position.
#[derive(Debug, Clone, PartialEq, Eq)]
pub struct UpdateSlTpRequest {
    pub trader_id: String,
    pub account_id: String,
    pub position_id: String,
    pub process_id: String,
    pub tp_in_profit: Option<i64>,
    pub sl_in_profit: Option<i64>,
    pub tp_in_asset_price: Option<i64>,
    pub sl_in_asset_price: Option<i64>,
}

/// An active position as the position ledger reports it.
#[derive(Debug, Clone, PartialEq, Eq)]
pub struct ActivePosition {
    pub id: String,
    pub trader_id: String,
    pub account_id: String,
    pub asset_pair: String,
    pub side: PositionSide,
    pub invest_amount: i64,
    pub leverage: i32,
    pub stop_out_percent: u32,
    pub create_process_id: String,
    pub tp_in_profit: Option<i64>,
    pub sl_in_profit: Option<i64>,
    pub tp_in_asset_price: Option<i64>,
    pub sl_in_asset_price: Option<i64>,
    pub open_price: i64,
    pub base: String,
    pub quote: String,
    pub collateral: String,
}

/// A pending order as the position ledger reports it.
#[derive(Debug, Clone, PartialEq, Eq)]
pub struct PendingPosition {
    pub id: String,
    pub trader_id: String,
    pub account_id: String,
    pub asset_pair: String,
    pub side: PositionSide,
    pub invest_amount: i64,
    pub leverage: i32,
    pub stop_out_percent: u32,
    pub create_process_id: String,
    pub desire_price: i64,
}

/// A closed position as the position ledger reports it.
#[derive(Debug, Clone, PartialEq, Eq)]
pub struct ClosedPosition {
    pub id: String,
    pub trader_id: String,
    pub account_id: String,
    pub asset_pair: String,
    pub side: PositionSide,
    pub invest_amount: i64,
    pub leverage: i32,
    pub open_price: i64,
    pub close_price: i64,
    pub close_reason: i32,
}

/// A balance mutation sent to the account ledger. A negative `delta` debits
/// the account, a positive one credits it.
#[derive(Debug, Clone, PartialEq, Eq)]
pub struct BalanceUpdateRequest {
    pub trader_id: String,
    pub account_id: String,
    pub delta: i64,
    pub comment: String,
    pub process_id: String,
    pub allow_negative_balance: bool,
    pub reason: UpdateBalanceReason,
}

/// An open request sent to the position ledger.
#[derive(Debug, Clone, PartialEq, Eq)]
pub struct PositionLedgerOpenRequest {
    pub id: String,
    pub trader_id: String,
    pub account_id: String,
    pub asset_pair: String,
    pub side: PositionSide,
    pub invest_amount: i64,
    pub leverage: i32,
    pub stop_out_percent: u32,
    pub process_id: String,
    pub tp_in_profit: Option<i64>,
    pub sl_in_profit: Option<i64>,
    pub tp_in_asset_price: Option<i64>,
    pub sl_in_asset_price: Option<i64>,
    pub base: String,
    pub quote: String,
    pub collateral_currency: String,
}

/// An open-pending request sent to the position ledger.
#[derive(Debug, Clone, PartialEq, Eq)]
pub struct PositionLedgerOpenPendingRequest {
    pub id: String,
    pub trader_id: String,
    pub account_id: String,
    pub asset_pair: String,
    pub side: PositionSide,
    pub invest_amount: i64,
    pub leverage: i32,
    pub stop_out_percent: u32,
    pub process_id: String,
    pub tp_in_profit: Option<i64>,
    pub sl_in_profit: Option<i64>,
    pub tp_in_asset_price: Option<i64>,
    pub sl_in_asset_price: Option<i64>,
    pub base: String,
    pub quote: String,
    pub collateral_currency: String,
    pub desire_price: i64,
}

/// A close request sent to the position ledger.
#[derive(Debug, Clone, PartialEq, Eq)]
pub struct PositionLedgerCloseRequest {
    pub trader_id: String,
    pub account_id: String,
    pub position_id: String,
    pub process_id: String,
}

/// A cancel-pending request sent to the position ledger.
#[derive(Debug, Clone, PartialEq, Eq)]
pub struct PositionLedgerCancelPendingRequest {
    pub trader_id: String,
    pub account_id: String,
    pub id: String,
}

/// An amend request sent to the position ledger.
#[derive(Debug, Clone, PartialEq, Eq)]
pub struct PositionLedgerUpdateSlTpRequest {
    pub trader_id: String,
    pub account_id: String,
    pub position_id: String,
    pub process_id: String,
    pub tp_in_profit: Option<i64>,
    pub sl_in_profit: Option<i64>,
    pub tp_in_asset_price: Option<i64>,
    pub sl_in_asset_price: Option<i64>,
}

/// An open request sent to the liquidity bridge.
#[derive(Debug, Clone, PartialEq, Eq)]
pub struct ABookBridgeOpenPositionRequest {
    pub instrument_id: String,
    pub position_id: String,
    pub account_id: String,
    pub leverage: i32,
    pub invest_amount: i64,
    pub side: ABookBridgePositionSide,
}

} // verus!
