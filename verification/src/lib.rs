//! Swap orchestration for a cross-chain entry point: route validation,
//! affiliate fee and refund arithmetic, and the ordered list of outbound
//! messages that one user swap dispatches.

pub mod coin;
pub mod entry_point;
pub mod error;
pub mod fee;
pub mod ibc;
pub mod lido_satellite;
pub mod math;
pub mod msg;
pub mod payment;
pub mod swap;
pub mod text;
pub mod venue;
