//! The decision core of an autonomous trading agent on NEAR.
//!
//! The agent answers each call from plain values: who calls, what is attached, what the account
//! holds. Its answer is a plan for the host (log lines, calls on other contracts, a call back)
//! or the reason for which the call is rejected. The host's side is not part of this crate.
//!
//! - [`agent`]: the agent and its entry points.
//! - [`model`]: what each entry point does, over mathematical values.
//! - [`guarantees`]: what each entry point gives to those who deal with the agent.
//! - [`laws`] and [`unambiguous`]: what holds of the agent and its messages as a whole.
//! - [`host`] and [`error`]: what goes in and what comes out.
//! - [`messages`], [`json`] and [`text`]: what is sent and logged.
//! - [`near`]: amounts, gas and keys.

pub mod agent;
pub mod error;
pub mod guarantees;
pub mod host;
pub mod json;
pub mod laws;
pub mod messages;
pub mod model;
pub mod near;
pub mod text;
pub mod unambiguous;

pub use agent::{IronClawAgent, RiskConfig};
pub use error::AgentError;
pub use host::{CallContext, Callback, FunctionCall, Plan, SelfCall};
pub use near::PublicKey;
