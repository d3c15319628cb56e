//! Admission control through client-side proof of work.
//!
//! A server hands each connection random challenges; the client must find, for
//! each one, a solution whose hash falls below a difficulty threshold. The number
//! of rounds required before an access token is minted grows with the traffic
//! recorded in a sliding window of per-second counters.
pub mod client;
pub mod load;
pub mod miner;
pub mod server;
pub mod target;
