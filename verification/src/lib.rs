//! Persistence rules for a single-row settings record and for currency
//! exchange rates kept as rows of a general asset table.
//!
//! - [`model`] holds the records and [`clock`] the points in time.
//! - [`codec`] reads an exchange rate from a currency row and writes it back.
//! - [`store`] holds the two tables and the single statements on them.
//! - [`settings_service`] holds the operations that callers use.
//! - [`laws`] states what holds of the operations taken together.

pub mod clock;
pub mod codec;
pub mod error;
pub mod laws;
pub mod model;
pub mod settings_service;
pub mod store;
