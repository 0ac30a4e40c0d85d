//! Membership records and the annual billing engine of a membership
//! organization: fee resolution, checksummed payment references, per-household
//! invoice generation and deletions that keep the records consistent.
pub mod billing;
pub mod calendar;
pub mod database;
pub mod guard;
pub mod laws;
pub mod models;
pub mod order;
pub mod payments;
pub mod records;
pub mod reference;
pub mod views;
