//! Core of a terminal search client: text sanitation, extraction of search
//! results from raw markup, query handling, and the modal browsing state
//! machine. Terminal drawing, the network fetch and process spawning live
//! outside this library.
pub mod browse;
pub mod query;
pub mod record;
pub mod scrape;
pub mod text;
