pub mod ledger;
pub mod substrate;
pub mod traits;
