//! An oracle for the results of matches, as a contract on the Soroban host.
//!
//! - [`contract`]: the functions of the contract, with the effect that each has.
//! - [`types`]: its errors, the outcomes of a match and the entries it keeps.
//! - [`host`]: what it asks of the host.
//! - [`behaviour`]: what a caller of its functions may rely on.
//! - [`laws`]: what holds of it over any series of requests.
pub mod behaviour;
pub mod contract;
pub mod host;
pub mod laws;
pub mod types;
