//! Design-time resolver for a declarative extension-graph description.
//!
//! A graph declares concrete processing nodes and "selector" nodes whose
//! membership is computed from a filter predicate over node attributes.
//! This library computes, for each selector, the concrete node set it
//! denotes and the inbound/outbound message bindings exposed by that set,
//! with deterministic, duplication-faithful results.

pub mod cache;
pub mod check_env;
pub mod cmd;
pub mod designer;
pub mod engine;
pub mod errors;
pub mod filter;
pub mod flow;
pub mod graph;
pub mod message;
pub mod node;
pub mod resolve;
pub mod strings;
