//! Core of a retail back-office: discounts, promotion matching, authorisation,
//! order fulfilment states and the validation and stock bookkeeping of sales.
//!
//! Money is counted in hundredths of a currency unit (cents), quantities in
//! whole units, and instants in seconds since the Unix epoch.

pub mod common;
pub mod discount;
pub mod employee;
pub mod order;
pub mod variant;
pub mod matcher;
pub mod transaction;
