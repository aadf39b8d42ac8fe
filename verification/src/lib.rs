//! Exchange of an account's credentials for a game-service bearer token,
//! along the chain login page, credential exchange, federation token,
//! security token, bearer token.
//!
//! The library decides and the caller performs: [`flow::Stage`] names the
//! request to send next and moves on with its reply; no function here touches
//! the network or a file.

pub mod cli;
pub mod error;
pub mod fileio;
pub mod flow;
pub mod fragment;
pub mod http;
pub mod json;
pub mod minecraft;
pub mod scrape;
pub mod text;
pub mod xbox;
