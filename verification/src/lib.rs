//! Payment and installment management for a building-materials store:
//! the entity model, the folding of joined result rows into payments with
//! their installments, the time-limited payment cache, and the rules that
//! decide when a payment may be written, together with the sales-transaction
//! state and listing strategies that accompany it.

pub mod error;
pub mod text;
pub mod text_map;
pub mod time;
pub mod model;
pub mod cache;
pub mod ident;
pub mod validation;
pub mod rows;
pub mod sql;
pub mod grouping;
pub mod repository;
pub mod aggregate;
pub mod service;
pub mod conversation;
pub mod payment_service;
pub mod controller;
pub mod profiling_tools;
pub mod transaksi;
