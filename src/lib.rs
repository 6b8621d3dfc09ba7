//! A token-vesting escrow: a grantor locks a deposit for a beneficiary, who
//! may withdraw a share that grows linearly between a start and an end time.

pub mod key;
pub mod schedule;
pub mod stream;
