//! A candle auction engine: bids are collected over an opening and an ending
//! window, and the winner is the leading bidder at a moment of the ending
//! window that is drawn at random only after the window has closed.

pub mod auction;
pub mod entropy;
pub mod events;
pub mod identity;
pub mod laws;
pub mod ledger;
pub mod model;
pub mod phase;
pub mod track;
