//! Accounting engine for linear token streams: how much of a deposit has
//! unlocked at a given time, which lifecycle status a stream is in, and what
//! creating, withdrawing from and cancelling a stream do to its record.

pub mod contract;
pub mod effects;
pub mod events;
pub mod fixed_point;
pub mod storage;
pub mod types;
pub mod vesting;

pub use contract::DirectStreamContract;
