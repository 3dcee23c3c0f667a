//! Library logic of a terminal lyrics fetcher: track records, lyrics results,
//! filtering, bounded admission of background work, progress accounting and
//! the input-driven session state.

pub mod musicdata;
pub mod filter;
pub mod limiter;
pub mod progress;
pub mod input;
pub mod session;
