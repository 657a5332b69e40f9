//! A ledger of bank-statement movements: CSV rows are decoded into signed
//! movements, folded into reports of gross revenue, expenses and net revenue,
//! and written with their report fragment under one store transaction.

pub mod amount;
pub mod entity;
pub mod error;
pub mod logic;
pub mod query;
