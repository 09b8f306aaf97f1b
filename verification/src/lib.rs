//! Verified core of a staking-rewards exporter: joins an ordered sequence of
//! reward events with an equally ordered sequence of daily price snapshots and
//! renders one semicolon-delimited row per reward.

pub mod amount;
pub mod date;
pub mod error;
pub mod network;
pub mod pipeline;
pub mod price;
pub mod record;
