//! Battery charge-limit toolkit: the data model, the text parsers for the
//! system reports it reads, the charging policy of the privileged helper,
//! the SMC request/response logic and the service bookkeeping.

pub mod text;
pub mod battery;
pub mod smc;
pub mod helper;
pub mod daemon;
pub mod service;
pub mod update;
pub mod ui;
pub mod tray;
