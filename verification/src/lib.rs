//! A registry of supported blockchain networks and of the token contracts
//! known on each of them.
//!
//! [`network`] holds the closed set of networks with their wire tags and
//! their split into families. [`types`] holds the record that describes one
//! token on one network. [`usdc`], [`uvd`] and [`wavax`] hold one registry
//! each. [`evm`] says which texts denote an EVM address.

pub mod evm;
pub mod network;
mod text;
pub mod types;
pub mod usdc;
pub mod uvd;
pub mod wavax;
