//! Star Trader: the rules of a space-trading game (markets, haggling,
//! banking, travel and arrivals), with their contracts proved by Verus.

pub mod goods;
pub mod star;
pub mod date;
pub mod text;
pub mod parse;
pub mod world;
pub mod trade;
pub mod bank;
pub mod market;
pub mod travel;
pub mod arrivals;
pub mod demo;
pub mod keys;
pub mod screens;
pub mod session;
pub mod guard;
pub mod display;
pub mod chart;
pub mod panels;
pub mod starmap;
pub mod cli;
pub mod laws;
