//! A stock-and-ledger core for a goods pipeline: products are delivered into
//! a warehouse, loaded onto trucks, sold to shops and paid for over time,
//! and cash allowances are given to trucks.
//!
//! The heart of the crate is the [`ledger::Ledger`], a store that holds
//! every table of the pipeline. Each of its operations is applied as a whole
//! or not at all. It keeps the [`stock::StockLedger`] reconciled with the
//! history of deliveries and truck loads, never lets a quantity drop below
//! zero, fixes the total of a sale from the unit prices at the time of the
//! sale, and moves a sale from pending to paid as payments reach its total.
//! What a ledger holds is described by [`state::LedgerState`]; what holds of
//! it whatever is done with it is stated in [`laws`].
//!
//! The smaller decisions that those operations are made of
//! ([`stock::credit_row`], [`stock::debit_row`], [`sale::sale_total`],
//! [`models::Sale::apply_payment`] and others) take and return plain values,
//! so that a service in front of another store can run the same rules on the
//! rows that it has read and locked.
//!
//! Around the core stand the pieces that a service needs to take requests:
//! who may ask for what ([`access`]), how requests are read and answered
//! ([`handler`], [`dtos`], [`validation`]), and what the notification mails
//! carry ([`mail`]).
//!
//! Money is counted in hundredths ([`money::Amount`]), identities are 128-bit
//! numbers ([`ids`]), and dates are plain year, month and day ([`dates`]).

pub mod access;
pub mod dates;
pub mod dtos;
pub mod error;
pub mod handler;
pub mod history;
pub mod ids;
pub mod laws;
pub mod ledger;
pub mod mail;
pub mod models;
pub mod money;
pub mod sale;
pub mod state;
pub mod stock;
pub mod validation;
