//! Slates: the partial transactions that wallets pass back and forth while
//! they build a transaction together.
pub mod bytes;
pub mod compare;
pub mod crypto;
pub mod documents;
pub mod error;
pub mod finalize;
pub mod laws;
pub mod messages;
pub mod offset;
pub mod participant;
pub mod rounds;
pub mod slate;
pub mod text;
pub mod transaction;
pub mod versions;
