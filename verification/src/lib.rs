//! A data-quality gate for agent traffic.
//!
//! The policy looks at a request on its way to an MCP server or an A2A agent, decides whether it is
//! an invocation that has to be gated, finds the current data-quality score of the governed asset,
//! and lets the request through, lets it through with a warning, or answers it with an error of
//! the request's own protocol.

pub mod text;
pub mod json;
pub mod recognize;
pub mod score;
pub mod config;
pub mod clock;
pub mod percent;
pub mod block;
pub mod storage;
pub mod race;
pub mod cdgc;
pub mod resolve;
pub mod filter;
