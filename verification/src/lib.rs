pub mod clock;
pub mod errors;
pub mod flows;
pub mod ledger;
pub mod models;
pub mod reference_data;
pub mod settings;
