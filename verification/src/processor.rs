//! One module per group of instructions.

pub mod lottery;
pub mod user;
pub mod initialize;
pub mod prize;
pub mod refund;
pub mod referral;
