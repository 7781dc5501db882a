//! Concurrent keyword search over a list of URLs, with a persistent
//! fetch cache that memoizes failures and supports an explicit retry.

pub mod cache;
pub mod cli;
pub mod fetch;
pub mod matcher;
pub mod outcome;
