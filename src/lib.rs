//! A ledger of competing agents, the battles between them and the bets placed
//! on those battles. Every record lives at an address derived from its seeds,
//! and creating a record where one already lives is refused.

pub mod address;
pub mod elo;
pub mod laws;
pub mod ledger;
pub mod records;
