//! A scatter-gather gateway core: given one prompt, plan an invocation per
//! configured backend adapter, aggregate whatever outcomes come back under a
//! deterministic policy, and record the result in an append-only request log
//! with derived leaderboard and recent-log views.

pub mod claud;
pub mod errors;
pub mod gateway;
pub mod gemini;
pub mod grok;
pub mod persistence;
pub mod registry;
pub mod scatter;
pub mod state;
pub mod tavily;
