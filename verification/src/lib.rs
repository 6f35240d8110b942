//! Core of a rule-driven intercepting proxy.
//!
//! Given the text of a configuration file, [`parse::parse_config`] yields a
//! raw document, [`resolver::resolve`] merges shared blocks into each rule
//! and produces an ordered [`rules::RuleTable`], and [`matcher::intercept`]
//! evaluates that table against one intercepted request, handing back the
//! matched rule's redirect target. [`store::LiveRuleStore`] holds the one
//! active table, and [`reload::reload_from_text`] replaces it on a
//! successful reload — or, on any failure, provably leaves it untouched.
//! [`laws`] states and proves the guarantees that span these pieces.
//!
//! The embedding (transport, TLS interception, file watching, terminal)
//! lives outside; it hands this crate plain values and applies its answers.

pub mod cli;
pub mod config;
pub mod error;
pub mod laws;
pub mod matcher;
pub mod parse;
pub mod patterns;
pub mod reload;
pub mod resolver;
pub mod rules;
pub mod store;
pub mod text;
