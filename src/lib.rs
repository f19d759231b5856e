//! Trust fabric: oracle consensus over identity claims, reputation scores
//! that accrue and decay, and a staking pool with lazy reward accrual and
//! slashing. Every operation is a pure state transition over plain records;
//! the caller supplies the current time and performs any fund movement that
//! an operation reports.
pub mod key;
pub mod reputation;
pub mod staking;
pub mod oracle;
pub mod identity;
pub mod credential;
