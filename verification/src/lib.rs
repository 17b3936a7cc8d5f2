//! Status acquisition and normalization for a set of LLM service providers.
//!
//! Each provider publishes its health either through a structured status API
//! (a JSON summary document) or through a rendered status page that must be
//! scraped.  This crate holds the verified core of the monitor: the canonical
//! status model, the JSON wire-shape decoder, the vocabulary maps that
//! normalize each source's native wording, the retry/backoff policy, the
//! scrape-session state machine, and the aggregator that collects one outcome
//! per configured source.  The unverified binary around the crate performs the
//! actual network and browser I/O and feeds the results through these
//! functions.

pub mod config;
pub mod fetcher;
pub mod google;
pub mod json;
pub mod models;
pub mod text;
