//! CasPay: the payment-platform contract of a Casper chain, as a verified
//! state machine over its own storage.

pub mod address;
pub mod amount;
pub mod strmap;
pub mod text;
pub mod types;
pub mod errors;
pub mod events;
pub mod storage;
pub mod caspay;
pub mod laws;
