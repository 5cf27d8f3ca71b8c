//! Storage-fee bookkeeping: the cache of the last fetched prices, the readers of
//! the price sources' answers, and the rule by which a fee change is announced.
//!
//! Prices in dollars are IEEE-754 doubles. The library never computes with them:
//! it carries each as its 64-bit pattern, the value of `f64::to_bits`.

pub mod json;
pub mod notifier;
pub mod price_cache;
pub mod price_feed;
pub mod winston;
