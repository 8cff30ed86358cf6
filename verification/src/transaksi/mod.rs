//! Sales transactions: their status, the rules of each status, and the
//! ways of ordering and searching a list of them.

pub mod model;
pub mod state;
pub mod strategy;
