use vstd::prelude::*;

use crate::clock::current_unix_millis;
use crate::errors::TradingExecutorError;
use crate::reference_data::{
    instrument_index, pair_quote_index, quote_index, ReferenceSnapshot, TradingInstrument,
};

verus! {

/// Whether a quote last updated at `last_millis` is still fresh at
/// `now_millis`, under the instrument's staleness thresholds (in seconds).
/// When a day timeout is configured it is the one consulted; otherwise the
/// night timeout, if any, applies; with neither, freshness is not enforced.
/// The age equal to the threshold still passes.
pub open spec fn freshness_ok(
    day_timeout: Option<u64>,
    night_timeout: Option<u64>,
    last_millis: int,
    now_millis: int,
) -> bool {
    match day_timeout {
        Some(t) => now_millis - last_millis <= t * 1000,
        None => match night_timeout {
            Some(t) => now_millis - last_millis <= t * 1000,
            None => true,
        },
    }
}

/// The freshness check of one conversion leg: the first quote pairing `a`
/// and `b` (in either direction) must exist, its instrument must be known,
/// and its quote must be fresh.
pub open spec fn leg_check(
    snapshot: ReferenceSnapshot,
    a: Seq<char>,
    b: Seq<char>,
    now_millis: int,
) -> Result<(), TradingExecutorError> {
    match pair_quote_index(snapshot.bid_asks@, a, b) {
        None => Err(TradingExecutorError::NoLiquidity),
        Some(qi) => {
            let q = snapshot.bid_asks@[qi];
            match instrument_index(snapshot.instruments@, q.id@) {
                None => Err(TradingExecutorError::InstrumentNotFound),
                Some(ii) => {
                    let instr = snapshot.instruments@[ii];
                    if freshness_ok(
                        instr.day_timeout,
                        instr.night_timeout,
                        q.unix_timestamp_with_millis as int,
                        now_millis,
                    ) {
                        Ok(())
                    } else {
                        Err(TradingExecutorError::NoLiquidity)
                    }
                },
            }
        },
    }
}

/// The freshness check of the traded asset pair itself, by its pair id.
pub open spec fn asset_leg_check(
    snapshot: ReferenceSnapshot,
    asset_id: Seq<char>,
    now_millis: int,
) -> Result<(), TradingExecutorError> {
    match quote_index(snapshot.bid_asks@, asset_id) {
        None => Err(TradingExecutorError::NoLiquidity),
        Some(qi) => {
            let q = snapshot.bid_asks@[qi];
            match instrument_index(snapshot.instruments@, q.id@) {
                None => Err(TradingExecutorError::InstrumentNotFound),
                Some(ii) => {
                    let instr = snapshot.instruments@[ii];
                    if freshness_ok(
                        instr.day_timeout,
                        instr.night_timeout,
                        q.unix_timestamp_with_millis as int,
                        now_millis,
                    ) {
                        Ok(())
                    } else {
                        Err(TradingExecutorError::NoLiquidity)
                    }
                },
            }
        },
    }
}

/// The whole price-freshness rule for trading an instrument with legs `base`
/// and `quote` against the collateral currency: each leg that differs from
/// the collateral must have a fresh conversion quote, and the traded pair's
/// own quote must be fresh. Checks run in that order and the first failure
/// is the result.
pub open spec fn validate_timeout_spec(
    snapshot: ReferenceSnapshot,
    asset_id: Seq<char>,
    base: Seq<char>,
    quote: Seq<char>,
    collateral: Seq<char>,
    now_millis: int,
) -> Result<(), TradingExecutorError> {
    if base != collateral && leg_check(snapshot, base, collateral, now_millis) is Err {
        leg_check(snapshot, base, collateral, now_millis)
    } else if quote != collateral && leg_check(snapshot, quote, collateral, now_millis) is Err {
        leg_check(snapshot, quote, collateral, now_millis)
    } else {
        asset_leg_check(snapshot, asset_id, now_millis)
    }
}

/// Decide whether the quote of `instrument` last updated at
/// `last_bidask_date` (unix milliseconds) is fresh at `now_millis`.
pub fn validate_instrument_timeout_at(
    instrument: &TradingInstrument,
    last_bidask_date: u64,
    now_millis: i64,
) -> (r: Result<(), TradingExecutorError>)
    ensures
        r is Ok <==> freshness_ok(
            instrument.day_timeout,
            instrument.night_timeout,
            last_bidask_date as int,
            now_millis as int,
        ),
        r is Err ==> r == Err::<(), TradingExecutorError>(TradingExecutorError::NoLiquidity),
{
    let age: i128 = now_millis as i128 - last_bidask_date as i128;

    if let Some(day_t) = instrument.day_timeout {
        if age > day_t as i128 * 1000 {
            return Err(TradingExecutorError::NoLiquidity);
        }
        return Ok(());
    }

    if let Some(night_t) = instrument.night_timeout {
        if age > night_t as i128 * 1000 {
            return Err(TradingExecutorError::NoLiquidity);
        }
        return Ok(());
    }

    Ok(())
}

/// Decide whether the quote of `instrument` last updated at
/// `last_bidask_date` (unix milliseconds) is fresh now. The instant is read
/// from the clock; the result is exactly the freshness rule at the instant
/// that was read.
pub fn validate_instrument_timeout(instrument: &TradingInstrument, last_bidask_date: u64) -> (r:
    Result<(), TradingExecutorError>)
    ensures
        r is Err ==> r == Err::<(), TradingExecutorError>(TradingExecutorError::NoLiquidity),
        exists|now: int|
            r is Ok <==> freshness_ok(
                instrument.day_timeout,
                instrument.night_timeout,
                last_bidask_date as int,
                now,
            ),
        instrument.day_timeout is None && instrument.night_timeout is None ==> r is Ok,
{
    let now_millis = current_unix_millis();
    let r = validate_instrument_timeout_at(instrument, last_bidask_date, now_millis);
    proof {
        assert(r is Ok <==> freshness_ok(
            instrument.day_timeout,
            instrument.night_timeout,
            last_bidask_date as int,
            now_millis as int,
        ));
    }
    r
}

/// Run the freshness check of one conversion leg against the snapshot.
fn check_leg(snapshot: &ReferenceSnapshot, a: &String, b: &String, now_millis: i64) -> (r: Result<
    (),
    TradingExecutorError,
>)
    ensures
        r == leg_check(*snapshot, a@, b@, now_millis as int),
{
    match snapshot.find_pair_quote(a, b) {
        None => Err(TradingExecutorError::NoLiquidity),
        Some(qi) => {
            let last = snapshot.bid_asks[qi].unix_timestamp_with_millis;
            match snapshot.find_instrument(&snapshot.bid_asks[qi].id) {
                None => Err(TradingExecutorError::InstrumentNotFound),
                Some(ii) => {
                    let res = validate_instrument_timeout_at(
                        &snapshot.instruments[ii],
                        last,
                        now_millis,
                    );
                    proof {
                        let q = snapshot.bid_asks@[qi as int];
                        let instr = snapshot.instruments@[ii as int];
                        if freshness_ok(
                            instr.day_timeout,
                            instr.night_timeout,
                            q.unix_timestamp_with_millis as int,
                            now_millis as int,
                        ) {
                            assert(res->Ok_0 == ());
                            assert(res == Ok::<(), TradingExecutorError>(()));
                        } else {
                            assert(res == Err::<(), TradingExecutorError>(
                                TradingExecutorError::NoLiquidity,
                            ));
                        }
                    }
                    res
                },
            }
        },
    }
}

/// Run the whole price-freshness rule against the snapshot at `now_millis`.
pub fn validate_timeout_at(
    snapshot: &ReferenceSnapshot,
    asset_instrument: &TradingInstrument,
    base: &String,
    quote: &String,
    collateral: &String,
    now_millis: i64,
) -> (r: Result<(), TradingExecutorError>)
    ensures
        r == validate_timeout_spec(
            *snapshot,
            asset_instrument.id@,
            base@,
            quote@,
            collateral@,
            now_millis as int,
        ),
{
    if !(*base == *collateral) {
        let leg = check_leg(snapshot, base, collateral, now_millis);
        if leg.is_err() {
            return leg;
        }
    }

    if !(*quote == *collateral) {
        let leg = check_leg(snapshot, quote, collateral, now_millis);
        if leg.is_err() {
            return leg;
        }
    }

    match snapshot.find_quote(&asset_instrument.id) {
        None => Err(TradingExecutorError::NoLiquidity),
        Some(qi) => {
            let last = snapshot.bid_asks[qi].unix_timestamp_with_millis;
            match snapshot.find_instrument(&snapshot.bid_asks[qi].id) {
                None => Err(TradingExecutorError::InstrumentNotFound),
                Some(ii) => {
                    let res = validate_instrument_timeout_at(
                        &snapshot.instruments[ii],
                        last,
                        now_millis,
                    );
                    proof {
                        let q = snapshot.bid_asks@[qi as int];
                        let instr = snapshot.instruments@[ii as int];
                        if freshness_ok(
                            instr.day_timeout,
                            instr.night_timeout,
                            q.unix_timestamp_with_millis as int,
                            now_millis as int,
                        ) {
                            assert(res->Ok_0 == ());
                            assert(res == Ok::<(), TradingExecutorError>(()));
                        } else {
                            assert(res == Err::<(), TradingExecutorError>(
                                TradingExecutorError::NoLiquidity,
                            ));
                        }
                    }
                    res
                },
            }
        },
    }
}

/// Run the whole price-freshness rule against the snapshot now. The instant
/// is read from the clock; the result is exactly the rule at the instant that
/// was read.
pub fn validate_timeout(
    snapshot: &ReferenceSnapshot,
    asset_instrument: &TradingInstrument,
    base: &String,
    quote: &String,
    collateral: &String,
) -> (r: Result<(), TradingExecutorError>)
    ensures
        exists|now: int|
            r == validate_timeout_spec(
                *snapshot,
                asset_instrument.id@,
                base@,
                quote@,
                collateral@,
                now,
            ),
{
    let now_millis = current_unix_millis();
    let r = validate_timeout_at(snapshot, asset_instrument, base, quote, collateral, now_millis);
    proof {
        assert(r == validate_timeout_spec(
            *snapshot,
            asset_instrument.id@,
            base@,
            quote@,
            collateral@,
            now_millis as int,
        ));
    }
    r
}

/// A quote timestamped exactly `day_timeout` seconds before now is still
/// fresh (the boundary passes); a quote one second older than that is stale.
pub proof fn lemma_freshness_boundary(
    day_timeout: u64,
    night_timeout: Option<u64>,
    now_millis: int,
)
    ensures
        freshness_ok(
            Some(day_timeout),
            night_timeout,
            now_millis - day_timeout * 1000,
            now_millis,
        ),
        !freshness_ok(
            Some(day_timeout),
            night_timeout,
            now_millis - day_timeout * 1000 - 1000,
            now_millis,
        ),
{
}

} // verus!
