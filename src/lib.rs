//! Settlement of a two-party escrow swap: the taker pays the maker, the
//! custodial vault releases its whole balance to the taker under a
//! program-derived authority, and the emptied vault and its escrow record are
//! closed, all as one atomic step.

pub mod address;
pub mod error;
pub mod ledger;
pub mod take;
pub mod laws;
