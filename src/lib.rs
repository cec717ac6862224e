//! Decision layer of a multi-venue trading and staking adapter.
//!
//! Given an action or a query aimed at a named venue, the library resolves the
//! venue, decides whether the work runs on the local chain or is forwarded to a
//! remote chain, turns symbolic assets into transferable coins, and assembles the
//! outbound messages. Everything the host chain knows (the name directory, the
//! account registry, whether an address holds code) reaches the library as plain
//! values in a `HostView`.
pub mod asset;
pub mod deploy;
pub mod dex;
pub mod error;
pub mod fee;
pub mod host;
pub mod staking;
pub mod venue;
