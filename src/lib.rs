//! Fighters, their pairwise contests, and the turn-based resolver that decides
//! each contest.

pub mod monster;
pub mod combat;
pub mod records;
pub mod battle;
pub mod import;
