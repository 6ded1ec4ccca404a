//! Address derivation, transaction-header and batch packaging, and tallying
//! for a ballot-ledger client.

pub mod address;
pub mod dispatch;
pub mod hex_text;
pub mod ident;
pub mod keys;
pub mod packaging;
pub mod tally;
