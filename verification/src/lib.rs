//! A cursor-driven scraper for a paginated review API.
//!
//! The heart of the crate is the pagination engine in [`engine`]: a verified
//! state machine that validates each fetched page, decides whether the scrape
//! continues, stops cleanly, or fails, and advances the pagination cursor.
//! The surrounding modules hold the page data model, the request-URL builder,
//! the response decoder, the output formatting, and the per-product tally.

pub mod engine;
pub mod fetch;
pub mod options;
pub mod page;
pub mod query;
pub mod render;
pub mod report;
