//! Options-overlay backtesting core: a synthetic trading calendar, an
//! append-only event log with identity allocation, a roll-trigger decision
//! engine and the bar-by-bar decisions of the simulation loop.

pub mod calendar;
pub mod config;
pub mod events;
pub mod intraday;
pub mod simulation;
pub mod text;
pub mod triggers;
