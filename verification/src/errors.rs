use vstd::prelude::*;

verus! {

/// The error taxonomy of the position-lifecycle orchestrator. Every lifecycle
/// operation either succeeds or terminates with exactly one of these kinds.
#[derive(Clone, Copy, Debug, PartialEq, Eq, Structural)]
pub enum TradingExecutorError {
    DayOff,
    OperationIsTooLow,
    OperationIsTooHigh,
    MinOperationsByInstrumentViolated,
    MaxOperationsByInstrumentViolated,
    NotEnoughBalance,
    NoLiquidity,
    PositionNotFound,
    TpIsTooClose,
    SlIsTooClose,
    AccountNotFound,
    InstrumentNotFound,
    InstrumentIsNotTradable,
    HitMaxAmountOfPendingOrders,
    TechError,
    MultiplierIsNotFound,
    TradingDisabled,
    MaxPositionsAmount,
    TradingGroupNotFound,
    TradingProfileNotFound,
    TradingProfileInstrumentNotFound,
    ABookReject,
}

/// The status vocabulary of the service boundary: `Ok` plus one code per error
/// kind.
#[derive(Clone, Copy, Debug, PartialEq, Eq, Structural)]
pub enum TradingExecutorOperationsCodes {
    StatusOk,
    DayOff,
    OperationIsTooLow,
    OperationIsTooHigh,
    MinOperationsByInstrumentViolated,
    MaxOperationsByInstrumentViolated,
    NotEnoughBalance,
    NoLiquidity,
    PositionNotFound,
    TpIsTooClose,
    SlIsTooClose,
    AccountNotFound,
    InstrumentNotFound,
    InstrumentIsNotTradable,
    HitMaxAmountOfPendingOrders,
    TechError,
    MultiplierIsNotFound,
    TradingDisabled,
    MaxPositionsAmount,
    TradingGroupNotFound,
    TradingProfileNotFound,
    TradingProfileInstrumentNotFound,
    ABookReject,
}

/// The boundary code that each error kind is reported as.
pub open spec fn operation_code_of(e: TradingExecutorError) -> TradingExecutorOperationsCodes {
    match e {
        TradingExecutorError::DayOff => TradingExecutorOperationsCodes::DayOff,
        TradingExecutorError::OperationIsTooLow => TradingExecutorOperationsCodes::OperationIsTooLow,
        TradingExecutorError::OperationIsTooHigh => TradingExecutorOperationsCodes::OperationIsTooHigh,
        TradingExecutorError::MinOperationsByInstrumentViolated => TradingExecutorOperationsCodes::MinOperationsByInstrumentViolated,
        TradingExecutorError::MaxOperationsByInstrumentViolated => TradingExecutorOperationsCodes::MaxOperationsByInstrumentViolated,
        TradingExecutorError::NotEnoughBalance => TradingExecutorOperationsCodes::NotEnoughBalance,
        TradingExecutorError::NoLiquidity => TradingExecutorOperationsCodes::NoLiquidity,
        TradingExecutorError::PositionNotFound => TradingExecutorOperationsCodes::PositionNotFound,
        TradingExecutorError::TpIsTooClose => TradingExecutorOperationsCodes::TpIsTooClose,
        TradingExecutorError::SlIsTooClose => TradingExecutorOperationsCodes::SlIsTooClose,
        TradingExecutorError::AccountNotFound => TradingExecutorOperationsCodes::AccountNotFound,
        TradingExecutorError::InstrumentNotFound => TradingExecutorOperationsCodes::InstrumentNotFound,
        TradingExecutorError::InstrumentIsNotTradable => TradingExecutorOperationsCodes::InstrumentIsNotTradable,
        TradingExecutorError::HitMaxAmountOfPendingOrders => TradingExecutorOperationsCodes::HitMaxAmountOfPendingOrders,
        TradingExecutorError::TechError => TradingExecutorOperationsCodes::TechError,
        TradingExecutorError::MultiplierIsNotFound => TradingExecutorOperationsCodes::MultiplierIsNotFound,
        TradingExecutorError::TradingDisabled => TradingExecutorOperationsCodes::TradingDisabled,
        TradingExecutorError::MaxPositionsAmount => TradingExecutorOperationsCodes::MaxPositionsAmount,
        TradingExecutorError::TradingGroupNotFound => TradingExecutorOperationsCodes::TradingGroupNotFound,
        TradingExecutorError::TradingProfileNotFound => TradingExecutorOperationsCodes::TradingProfileNotFound,
        TradingExecutorError::TradingProfileInstrumentNotFound => TradingExecutorOperationsCodes::TradingProfileInstrumentNotFound,
        TradingExecutorError::ABookReject => TradingExecutorOperationsCodes::ABookReject,
    }
}

impl TradingExecutorError {
    /// The position ledger reports rejections as a numeric status; code 1 means
    /// no liquidity and code 2 means the position was not found. Other codes do
    /// not name an error and are not accepted here.
    pub fn from_status(value: i32) -> (r: TradingExecutorError)
        requires
            value == 1 || value == 2,
        ensures
            value == 1 ==> r == TradingExecutorError::NoLiquidity,
            value == 2 ==> r == TradingExecutorError::PositionNotFound,
    {
        if value == 1 {
            TradingExecutorError::NoLiquidity
        } else {
            TradingExecutorError::PositionNotFound
        }
    }

    /// Translate an orchestrator error into the boundary status code.
    pub fn to_operation_code(self) -> (r: TradingExecutorOperationsCodes)
        ensures
            r == operation_code_of(self),
    {
        match self {
            TradingExecutorError::DayOff => TradingExecutorOperationsCodes::DayOff,
            TradingExecutorError::OperationIsTooLow => TradingExecutorOperationsCodes::OperationIsTooLow,
            TradingExecutorError::OperationIsTooHigh => TradingExecutorOperationsCodes::OperationIsTooHigh,
            TradingExecutorError::MinOperationsByInstrumentViolated => TradingExecutorOperationsCodes::MinOperationsByInstrumentViolated,
            TradingExecutorError::MaxOperationsByInstrumentViolated => TradingExecutorOperationsCodes::MaxOperationsByInstrumentViolated,
            TradingExecutorError::NotEnoughBalance => TradingExecutorOperationsCodes::NotEnoughBalance,
            TradingExecutorError::NoLiquidity => TradingExecutorOperationsCodes::NoLiquidity,
            TradingExecutorError::PositionNotFound => TradingExecutorOperationsCodes::PositionNotFound,
            TradingExecutorError::TpIsTooClose => TradingExecutorOperationsCodes::TpIsTooClose,
            TradingExecutorError::SlIsTooClose => TradingExecutorOperationsCodes::SlIsTooClose,
            TradingExecutorError::AccountNotFound => TradingExecutorOperationsCodes::AccountNotFound,
            TradingExecutorError::InstrumentNotFound => TradingExecutorOperationsCodes::InstrumentNotFound,
            TradingExecutorError::InstrumentIsNotTradable => TradingExecutorOperationsCodes::InstrumentIsNotTradable,
            TradingExecutorError::HitMaxAmountOfPendingOrders => TradingExecutorOperationsCodes::HitMaxAmountOfPendingOrders,
            TradingExecutorError::TechError => TradingExecutorOperationsCodes::TechError,
            TradingExecutorError::MultiplierIsNotFound => TradingExecutorOperationsCodes::MultiplierIsNotFound,
            TradingExecutorError::TradingDisabled => TradingExecutorOperationsCodes::TradingDisabled,
            TradingExecutorError::MaxPositionsAmount => TradingExecutorOperationsCodes::MaxPositionsAmount,
            TradingExecutorError::TradingGroupNotFound => TradingExecutorOperationsCodes::TradingGroupNotFound,
            TradingExecutorError::TradingProfileNotFound => TradingExecutorOperationsCodes::TradingProfileNotFound,
            TradingExecutorError::TradingProfileInstrumentNotFound => TradingExecutorOperationsCodes::TradingProfileInstrumentNotFound,
            TradingExecutorError::ABookReject => TradingExecutorOperationsCodes::ABookReject,
        }
    }
}

} // verus!
