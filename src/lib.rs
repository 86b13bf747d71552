//! Heuristic detection of adversary-in-the-middle phishing relays: four
//! independent signals about a target host, combined into one score.
pub mod certificate;
pub mod config;
pub mod detector;
pub mod domain_age;
pub mod error;
pub mod origin;
pub mod text;
pub mod url_pattern;
pub mod verdict;
