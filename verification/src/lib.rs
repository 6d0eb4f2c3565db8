//! A scanner for stock quotes: the rules by which quotes are fetched in
//! batches, filtered, ranked and summarised, with their contracts.

pub mod config;
pub mod errors;
pub mod fetch;
pub mod figure;
pub mod finnhub;
pub mod output;
pub mod render;
pub mod summary;
pub mod symbols;
pub mod text;
