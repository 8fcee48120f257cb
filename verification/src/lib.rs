//! Trading logic of a two-sided limit-order bot for five-minute BTC up/down
//! markets.
//!
//! Every quantity is an integer. Prices, shares and dollars count millionths
//! ("micros"), the precision of both tokens on chain, and what is smaller is cut
//! off; products of two such quantities count 10^-12 units ("picos"). A price is
//! held in micros too, but rounded and compared as the binary number that the
//! settings hold for it.
pub mod api;
pub mod binary;
pub mod cli;
pub mod clob_client;
pub mod config;
pub mod cycle;
pub mod decimal;
pub mod discovery;
pub mod entry;
pub mod evm;
pub mod fixed_price;
pub mod laws;
pub mod models;
pub mod money;
pub mod orders;
pub mod positions;
pub mod strategy;
pub mod table;
pub mod text;
pub mod transactions;

