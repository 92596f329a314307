//! Fetches daily puzzle prompts and inputs for one year, caching them as
//! local files and skipping downloads whose files are already complete.
//!
//! The library holds the decision logic: reading the settings table,
//! building file paths and request URLs, deciding which resources still
//! need a download, judging HTTP status codes, and turning a prompt page
//! into the stored text. The surrounding binary performs the actual file
//! and network traffic and feeds the results back in as plain values.

pub mod config;
pub mod extract;
pub mod fetch;
pub mod textops;
