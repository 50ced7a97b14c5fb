pub mod action;
pub mod admin;
pub mod bridge;
pub mod codec;
pub mod credit;
pub mod crypto;
pub mod deposit;
pub mod error;
pub mod journal;
pub mod keys;
pub mod laws;
pub mod message;
pub mod meter;
pub mod model;
pub mod near;
pub mod record;
pub mod registry;
pub mod relayer;
pub mod release;
pub mod replay;
pub mod snapshot;
pub mod sums;
