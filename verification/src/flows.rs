pub mod validate_day_off;
pub mod validate_prices_timeout;
pub mod open_position_flow;
pub mod close_position;
pub mod open_limit;
pub mod update_sl_tp;
